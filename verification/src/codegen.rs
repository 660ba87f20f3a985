//! Source generation straight from a world: a panel function that places
//! every widget of one tab where the designer shows it, and a whole
//! application round that function.
//!
//! The text is described by functions that take what was written so far
//! and give what is written after one more piece.

use vstd::prelude::*;
use crate::components::TabKind;
use crate::components::UiButton;
use crate::components::UiCheckbox;
use crate::components::UiElement;
use crate::components::UiElementPosition;
use crate::components::UiElementSize;
use crate::components::UiGroupBox;
use crate::components::UiRadioButton;
use crate::components::UiTextInput;
use crate::components::WidgetKind;
use crate::text::decimal;
use crate::text::fixed_decimal;
use crate::text::lowercase;
use crate::text::push_decimal;
use crate::text::push_fixed_decimal;
use crate::text::replace_char;
use crate::text::replaced;
use crate::text::texts_of;
use crate::text::to_lowercase;
use crate::world::DesignerWorld;

verus! {

/// Writes source text line by line, each line indented by four spaces per
/// level.
pub struct CodeGenerator {
    pub indent_level: usize,
    pub code: String,
}

/// Four spaces for each level.
pub open spec fn indentation(level: nat) -> Seq<char>
    decreases level,
{
    if level == 0 {
        Seq::<char>::empty()
    } else {
        indentation((level - 1) as nat) + "    "@
    }
}

/// `written` and after it one line at the given level, with its line end.
#[verifier::opaque]
pub open spec fn with_line(written: Seq<char>, level: nat, line: Seq<char>) -> Seq<char> {
    written + indentation(level) + line + "\n"@
}

/// What follows a widget that is disabled.
pub open spec fn disabled_suffix(enabled: bool) -> Seq<char> {
    if enabled {
        Seq::<char>::empty()
    } else {
        ".enabled(false)"@
    }
}

/// A pair of numbers in brackets, each with one decimal place, after the
/// name of the function that takes them.
pub open spec fn pair_call(function: Seq<char>, a: int, b: int) -> Seq<char> {
    function + "("@ + fixed_decimal(a) + ", "@ + fixed_decimal(b) + ")"@
}

/// `written` and after it a line that holds the size `size` as a vector
/// between `prefix` and `suffix`.
pub open spec fn with_size_line(
    written: Seq<char>,
    level: nat,
    prefix: Seq<char>,
    size: UiElementSize,
    suffix: Seq<char>,
) -> Seq<char> {
    with_line(
        written,
        level,
        prefix + pair_call("egui::vec2"@, size.width as int, size.height as int) + suffix,
    )
}

/// `written` and after it a line that holds `text` between `prefix` and
/// `suffix`.
pub open spec fn with_quoted_line(
    written: Seq<char>,
    level: nat,
    prefix: Seq<char>,
    text: Seq<char>,
    suffix: Seq<char>,
) -> Seq<char> {
    with_line(written, level, prefix + text + suffix)
}

/// The name of the field that stands for a label: in lowercase, with an
/// underscore for each space.
pub open spec fn field_name(label: Seq<char>) -> Seq<char> {
    replaced(lowercase(label), ' ', "_"@)
}

/// The name of the field that stands for the label of a checkbox: as for
/// any label, and without question marks.
pub open spec fn flag_field_name(label: Seq<char>) -> Seq<char> {
    replaced(replaced(lowercase(label), ' ', "_"@), '?', Seq::<char>::empty())
}

/// The field name that is made of the lowercase form of a label.
pub fn field_name_from(lowered: &str) -> (name: String)
    ensures
        name@ == replaced(lowered@, ' ', "_"@),
{
    replace_char(lowered, ' ', "_")
}

/// The field name of a checkbox that is made of the lowercase form of its
/// label.
pub fn flag_field_name_from(lowered: &str) -> (name: String)
    ensures
        name@ == replaced(replaced(lowered@, ' ', "_"@), '?', Seq::<char>::empty()),
{
    let spaced = replace_char(lowered, ' ', "_");
    proof {
        reveal_strlit("");
        assert(""@ =~= Seq::<char>::empty());
    }
    replace_char(spaced.as_str(), '?', "")
}

/// `written` and after it the source for a button of the given size.
pub open spec fn with_button(
    written: Seq<char>,
    level: nat,
    button: UiButton,
    size: UiElementSize,
) -> Seq<char> {
    let opened = with_line(written, level, "if ui.add_sized("@);
    let sized = with_size_line(opened, level + 1, Seq::<char>::empty(), size, ","@);
    let made = with_line(
        sized,
        level + 1,
        "egui::Button::new(\""@ + button.label@ + "\")"@ + disabled_suffix(button.enabled),
    );
    let tested = with_line(made, level, ").clicked() {"@);
    let noted = with_quoted_line(
        tested,
        level + 1,
        "// TODO: Handle "@,
        button.label@,
        " button click"@,
    );
    with_line(noted, level, "}"@)
}

/// `written` and after it the source for a text input of the given size,
/// its label and field laid out by `layout` (`horizontal` or `vertical`).
pub open spec fn with_text_input(
    written: Seq<char>,
    level: nat,
    text_input: UiTextInput,
    size: UiElementSize,
    layout: Seq<char>,
) -> Seq<char> {
    let opened = with_quoted_line(written, level, "ui."@, layout, "(|ui| {"@);
    let labelled = with_quoted_line(
        opened,
        level + 1,
        "ui.label(\""@,
        text_input.label@,
        "\");"@,
    );
    let added = with_line(labelled, level + 1, "ui.add_sized("@);
    let sized = with_size_line(added, level + 2, Seq::<char>::empty(), size, ","@);
    let edited = with_line(
        sized,
        level + 2,
        "egui::TextEdit::singleline(&mut app."@ + field_name(text_input.label@) + ")"@
            + disabled_suffix(text_input.enabled),
    );
    let closed = with_line(edited, level + 1, ");"@);
    with_line(closed, level, "});"@)
}

/// `written` and after it the source for a checkbox.
pub open spec fn with_checkbox(written: Seq<char>, level: nat, checkbox: UiCheckbox) -> Seq<char> {
    with_line(
        written,
        level,
        "ui.checkbox(&mut app."@ + flag_field_name(checkbox.label@) + ", \""@ + checkbox.label@
            + "\")"@ + disabled_suffix(checkbox.enabled) + ";"@,
    )
}

/// `written` and after it the source for a radio button.
pub open spec fn with_radio_button(written: Seq<char>, level: nat, radio: UiRadioButton) -> Seq<char> {
    with_line(
        written,
        level,
        "ui.radio_value(&mut app."@ + radio.group_id@ + "_selection, \""@ + radio.label@
            + "\", \""@ + radio.label@ + "\")"@ + disabled_suffix(radio.enabled) + ";"@,
    )
}

/// `written` and after it the source for a group box of the given size.
pub open spec fn with_group_box(
    written: Seq<char>,
    level: nat,
    group_box: UiGroupBox,
    size: UiElementSize,
) -> Seq<char> {
    let opened = with_line(written, level, "ui.group(|ui| {"@);
    let sized = with_size_line(opened, level + 1, "ui.set_min_size("@, size, ");"@);
    let labelled = with_quoted_line(sized, level + 1, "ui.label(\""@, group_box.label@, "\");"@);
    let ruled = with_line(labelled, level + 1, "ui.separator();"@);
    let noted = with_line(ruled, level + 1, "// TODO: Add group box contents"@);
    with_line(noted, level, "});"@)
}

/// `written` and after it the source for a widget of any kind.
pub open spec fn with_widget(
    written: Seq<char>,
    level: nat,
    widget: WidgetKind,
    size: UiElementSize,
    layout: Seq<char>,
) -> Seq<char> {
    match widget {
        WidgetKind::Button(button) => with_button(written, level, button, size),
        WidgetKind::TextInput(text_input) => with_text_input(
            written,
            level,
            text_input,
            size,
            layout,
        ),
        WidgetKind::Checkbox(checkbox) => with_checkbox(written, level, checkbox),
        WidgetKind::RadioButton(radio) => with_radio_button(written, level, radio),
        WidgetKind::GroupBox(group_box) => with_group_box(written, level, group_box, size),
    }
}

/// `written` and after it the source that places a widget at its position:
/// an area fixed there, with the widget inside.
pub open spec fn with_positioned_element(written: Seq<char>, level: nat, element: UiElement) -> Seq<
    char,
> {
    let area = with_line(
        written,
        level,
        "egui::Area::new(egui::Id::new(\"element_"@ + decimal(element.entity.id as nat) + "\"))"@,
    );
    let fixed = with_line(
        area,
        level + 1,
        ".fixed_pos("@ + pair_call(
            "egui::pos2"@,
            element.position.x as int,
            element.position.y as int,
        ) + ")"@,
    );
    let shown = with_line(fixed, level + 1, ".show(ui.ctx(), |ui| {"@);
    let filled = with_widget(shown, level + 2, element.widget, element.size, "vertical"@);
    with_line(filled, level + 1, "});"@)
}

fn push_pair_call(out: &mut String, function: &str, a: i32, b: i32)
    ensures
        final(out)@ == old(out)@ + pair_call(function@, a as int, b as int),
{
    out.append(function);
    out.append("(");
    push_fixed_decimal(out, a as i64);
    out.append(", ");
    push_fixed_decimal(out, b as i64);
    out.append(")");
    assert(out@ =~= old(out)@ + pair_call(function@, a as int, b as int));
}

fn push_disabled_suffix(out: &mut String, enabled: bool)
    ensures
        final(out)@ == old(out)@ + disabled_suffix(enabled),
{
    if !enabled {
        out.append(".enabled(false)");
    }
    assert(out@ =~= old(out)@ + disabled_suffix(enabled));
}

impl CodeGenerator {
    /// A generator that has written nothing yet.
    pub fn new() -> (gen: CodeGenerator)
        ensures
            gen.indent_level == 0,
            gen.code@ == Seq::<char>::empty(),
    {
        CodeGenerator { indent_level: 0, code: String::new() }
    }

    fn indent(&self) -> (text: String)
        ensures
            text@ == indentation(self.indent_level as nat),
    {
        let mut text = String::new();
        let mut level: usize = 0;
        while level < self.indent_level
            invariant
                level <= self.indent_level,
                text@ == indentation(level as nat),
            decreases self.indent_level - level,
        {
            text.append("    ");
            level += 1;
        }
        text
    }

    /// Writes one line at the current level.
    pub fn writeln(&mut self, line: &str)
        ensures
            final(self).code@ == with_line(old(self).code@, old(self).indent_level as nat, line@),
            final(self).indent_level == old(self).indent_level,
    {
        let indent = self.indent();
        self.code.append(indent.as_str());
        self.code.append(line);
        self.code.append("\n");
        proof {
            reveal(with_line);
        }
    }

    /// Writes text as it is.
    pub fn write_raw(&mut self, text: &str)
        ensures
            final(self).code@ == old(self).code@ + text@,
            final(self).indent_level == old(self).indent_level,
    {
        self.code.append(text);
    }

    fn write_size_line(&mut self, prefix: &str, size: &UiElementSize, suffix: &str)
        ensures
            final(self).code@ == with_size_line(
                old(self).code@,
                old(self).indent_level as nat,
                prefix@,
                *size,
                suffix@,
            ),
            final(self).indent_level == old(self).indent_level,
    {
        let mut line = String::from_str(prefix);
        push_pair_call(&mut line, "egui::vec2", size.width, size.height);
        line.append(suffix);
        self.writeln(line.as_str());
    }

    fn write_bare_size_line(&mut self, size: &UiElementSize, suffix: &str)
        ensures
            final(self).code@ == with_size_line(
                old(self).code@,
                old(self).indent_level as nat,
                Seq::<char>::empty(),
                *size,
                suffix@,
            ),
            final(self).indent_level == old(self).indent_level,
    {
        let mut line = String::new();
        push_pair_call(&mut line, "egui::vec2", size.width, size.height);
        line.append(suffix);
        self.writeln(line.as_str());
    }

    fn write_quoted_line(&mut self, prefix: &str, text: &str, suffix: &str)
        ensures
            final(self).code@ == with_quoted_line(
                old(self).code@,
                old(self).indent_level as nat,
                prefix@,
                text@,
                suffix@,
            ),
            final(self).indent_level == old(self).indent_level,
    {
        let mut line = String::from_str(prefix);
        line.append(text);
        line.append(suffix);
        self.writeln(line.as_str());
    }

    /// Writes the source for a button.
    pub fn generate_button_code(&mut self, button: &UiButton, size: &UiElementSize)
        requires
            old(self).indent_level < usize::MAX,
        ensures
            final(self).code@ == with_button(
                old(self).code@,
                old(self).indent_level as nat,
                *button,
                *size,
            ),
            final(self).indent_level == old(self).indent_level,
    {
        self.writeln("if ui.add_sized(");
        self.indent_level += 1;
        self.write_bare_size_line(size, ",");
        let mut line = String::from_str("egui::Button::new(\"");
        line.append(button.label.as_str());
        line.append("\")");
        push_disabled_suffix(&mut line, button.enabled);
        self.writeln(line.as_str());
        self.indent_level -= 1;
        self.writeln(").clicked() {");
        self.indent_level += 1;
        self.write_quoted_line("// TODO: Handle ", button.label.as_str(), " button click");
        self.indent_level -= 1;
        self.writeln("}");
    }

    /// Writes the source for a text input, laid out by `layout`.
    pub fn generate_text_input_code(&mut self, text_input: &UiTextInput, size: &UiElementSize, layout: &str)
        requires
            old(self).indent_level < usize::MAX - 1,
        ensures
            final(self).code@ == with_text_input(
                old(self).code@,
                old(self).indent_level as nat,
                *text_input,
                *size,
                layout@,
            ),
            final(self).indent_level == old(self).indent_level,
    {
        self.write_quoted_line("ui.", layout, "(|ui| {");
        self.indent_level += 1;
        self.write_quoted_line("ui.label(\"", text_input.label.as_str(), "\");");
        self.writeln("ui.add_sized(");
        self.indent_level += 1;
        self.write_bare_size_line(size, ",");
        let lowered = to_lowercase(text_input.label.as_str());
        let field = field_name_from(lowered.as_str());
        let mut line = String::from_str("egui::TextEdit::singleline(&mut app.");
        line.append(field.as_str());
        line.append(")");
        push_disabled_suffix(&mut line, text_input.enabled);
        self.writeln(line.as_str());
        self.indent_level -= 1;
        self.writeln(");");
        self.indent_level -= 1;
        self.writeln("});");
    }

    /// Writes the source for a checkbox.
    pub fn generate_checkbox_code(&mut self, checkbox: &UiCheckbox)
        ensures
            final(self).code@ == with_checkbox(
                old(self).code@,
                old(self).indent_level as nat,
                *checkbox,
            ),
            final(self).indent_level == old(self).indent_level,
    {
        let lowered = to_lowercase(checkbox.label.as_str());
        let field = flag_field_name_from(lowered.as_str());
        let mut line = String::from_str("ui.checkbox(&mut app.");
        line.append(field.as_str());
        line.append(", \"");
        line.append(checkbox.label.as_str());
        line.append("\")");
        push_disabled_suffix(&mut line, checkbox.enabled);
        line.append(";");
        self.writeln(line.as_str());
    }

    /// Writes the source for a radio button.
    pub fn generate_radio_button_code(&mut self, radio: &UiRadioButton)
        ensures
            final(self).code@ == with_radio_button(
                old(self).code@,
                old(self).indent_level as nat,
                *radio,
            ),
            final(self).indent_level == old(self).indent_level,
    {
        let mut line = String::from_str("ui.radio_value(&mut app.");
        line.append(radio.group_id.as_str());
        line.append("_selection, \"");
        line.append(radio.label.as_str());
        line.append("\", \"");
        line.append(radio.label.as_str());
        line.append("\")");
        push_disabled_suffix(&mut line, radio.enabled);
        line.append(";");
        self.writeln(line.as_str());
    }

    /// Writes the source for a group box.
    pub fn generate_group_box_code(&mut self, group_box: &UiGroupBox, size: &UiElementSize)
        requires
            old(self).indent_level < usize::MAX,
        ensures
            final(self).code@ == with_group_box(
                old(self).code@,
                old(self).indent_level as nat,
                *group_box,
                *size,
            ),
            final(self).indent_level == old(self).indent_level,
    {
        self.writeln("ui.group(|ui| {");
        self.indent_level += 1;
        self.write_size_line("ui.set_min_size(", size, ");");
        self.write_quoted_line("ui.label(\"", group_box.label.as_str(), "\");");
        self.writeln("ui.separator();");
        self.writeln("// TODO: Add group box contents");
        self.indent_level -= 1;
        self.writeln("});");
    }

    /// Writes the source for a widget of any kind, a text input laid out by
    /// `layout`.
    pub fn generate_widget_code(&mut self, widget: &WidgetKind, size: &UiElementSize, layout: &str)
        requires
            old(self).indent_level < usize::MAX - 1,
        ensures
            final(self).code@ == with_widget(
                old(self).code@,
                old(self).indent_level as nat,
                *widget,
                *size,
                layout@,
            ),
            final(self).indent_level == old(self).indent_level,
    {
        match widget {
            WidgetKind::Button(button) => self.generate_button_code(button, size),
            WidgetKind::TextInput(text_input) => self.generate_text_input_code(
                text_input,
                size,
                layout,
            ),
            WidgetKind::Checkbox(checkbox) => self.generate_checkbox_code(checkbox),
            WidgetKind::RadioButton(radio) => self.generate_radio_button_code(radio),
            WidgetKind::GroupBox(group_box) => self.generate_group_box_code(group_box, size),
        }
    }

    /// Writes the source for a widget in the flow of its panel: a text input
    /// has its label beside it.
    pub fn generate_element_code(&mut self, element: &UiElement)
        requires
            old(self).indent_level < usize::MAX - 1,
        ensures
            final(self).code@ == with_widget(
                old(self).code@,
                old(self).indent_level as nat,
                element.widget,
                element.size,
                "horizontal"@,
            ),
            final(self).indent_level == old(self).indent_level,
    {
        self.generate_widget_code(&element.widget, &element.size, "horizontal");
    }

    /// Writes the source that places a widget at its position.
    pub fn generate_positioned_element_code(&mut self, element: &UiElement)
        requires
            old(self).indent_level < usize::MAX - 3,
        ensures
            final(self).code@ == with_positioned_element(
                old(self).code@,
                old(self).indent_level as nat,
                *element,
            ),
            final(self).indent_level == old(self).indent_level,
    {
        let mut line = String::from_str("egui::Area::new(egui::Id::new(\"element_");
        push_decimal(&mut line, element.entity.id);
        line.append("\"))");
        self.writeln(line.as_str());
        self.indent_level += 1;
        let mut line = String::from_str(".fixed_pos(");
        push_pair_call(&mut line, "egui::pos2", element.position.x, element.position.y);
        line.append(")");
        self.writeln(line.as_str());
        self.writeln(".show(ui.ctx(), |ui| {");
        self.indent_level += 1;
        self.generate_widget_code(&element.widget, &element.size, "vertical");
        self.indent_level -= 1;
        self.writeln("});");
        self.indent_level -= 1;
    }
}


/// Whether a widget at `a` is read after one at `b`: it stands lower, or at
/// the same height further right.
pub open spec fn reads_after(a: UiElementPosition, b: UiElementPosition) -> bool {
    a.y > b.y || (a.y == b.y && a.x > b.x)
}

/// `order` with the place `index` put in: behind every place whose widget
/// is not read after the widget at `index`.
pub open spec fn with_place_in_order(elements: Seq<UiElement>, order: Seq<usize>, index: usize) -> Seq<
    usize,
>
    decreases order.len(),
{
    if order.len() == 0 {
        seq![index]
    } else if reads_after(
        elements[order.last() as int].position,
        elements[index as int].position,
    ) {
        with_place_in_order(elements, order.drop_last(), index).push(order.last())
    } else {
        order.push(index)
    }
}

/// The places of those of the first `n` widgets that are on the tab
/// `tab_kind`, in reading order: from the top down, and from the left on
/// the same height. Widgets at one position keep their entity order.
pub open spec fn reading_order(elements: Seq<UiElement>, tab_kind: TabKind, n: nat) -> Seq<usize>
    decreases n,
{
    if n == 0 {
        Seq::<usize>::empty()
    } else if elements[n - 1].tab.tab_kind == tab_kind {
        with_place_in_order(
            elements,
            reading_order(elements, tab_kind, (n - 1) as nat),
            (n - 1) as usize,
        )
    } else {
        reading_order(elements, tab_kind, (n - 1) as nat)
    }
}

/// Putting a place in at `pos` is putting it in order, where the places
/// from `pos` on are read after it and the place before `pos` is not.
proof fn lemma_place_goes_in_at(elements: Seq<UiElement>, order: Seq<usize>, index: usize, pos: int)
    requires
        0 <= pos <= order.len(),
        forall|k: int|
            pos <= k < order.len() ==> reads_after(
                elements[(#[trigger] order[k]) as int].position,
                elements[index as int].position,
            ),
        pos > 0 ==> !reads_after(
            elements[order[pos - 1] as int].position,
            elements[index as int].position,
        ),
    ensures
        with_place_in_order(elements, order, index) == order.insert(pos, index),
    decreases order.len(),
{
    if order.len() == 0 {
        assert(order.insert(pos, index) =~= seq![index]);
    } else if pos == order.len() {
        assert(order.insert(pos, index) =~= order.push(index));
    } else {
        assert(reads_after(
            elements[order[order.len() - 1] as int].position,
            elements[index as int].position,
        ));
        lemma_place_goes_in_at(elements, order.drop_last(), index, pos);
        assert(order.insert(pos, index) =~= order.drop_last().insert(pos, index).push(
            order.last(),
        ));
    }
}

/// The places in a reading order are places of the world.
pub proof fn lemma_reading_order_is_in_range(elements: Seq<UiElement>, tab_kind: TabKind, n: nat)
    requires
        n <= elements.len(),
        n <= usize::MAX,
    ensures
        reading_order(elements, tab_kind, n).len() <= n,
        forall|k: int|
            0 <= k < reading_order(elements, tab_kind, n).len() ==> (#[trigger] reading_order(
                elements,
                tab_kind,
                n,
            )[k]) < n,
    decreases n,
{
    if n > 0 {
        lemma_reading_order_is_in_range(elements, tab_kind, (n - 1) as nat);
        if elements[n - 1].tab.tab_kind == tab_kind {
            lemma_with_place_keeps_range(
                elements,
                reading_order(elements, tab_kind, (n - 1) as nat),
                (n - 1) as usize,
                n,
            );
        }
    }
}

proof fn lemma_with_place_keeps_range(elements: Seq<UiElement>, order: Seq<usize>, index: usize, bound: nat)
    requires
        index < bound,
        forall|k: int| 0 <= k < order.len() ==> (#[trigger] order[k]) < bound,
    ensures
        with_place_in_order(elements, order, index).len() == order.len() + 1,
        forall|k: int|
            0 <= k < order.len() + 1 ==> (#[trigger] with_place_in_order(elements, order, index)[k])
                < bound,
    decreases order.len(),
{
    if order.len() > 0 {
        if reads_after(elements[order.last() as int].position, elements[index as int].position) {
            lemma_with_place_keeps_range(elements, order.drop_last(), index, bound);
        }
    }
}

/// Whether the widget at place `a` is read before the one at place `b`:
/// it stands higher, or at the same height further left, or at the same
/// position earlier in entity order.
pub open spec fn reads_before(elements: Seq<UiElement>, a: int, b: int) -> bool {
    reads_after(elements[b].position, elements[a].position) || (!reads_after(
        elements[a].position,
        elements[b].position,
    ) && a < b)
}

proof fn lemma_with_place_keeps_reading_order(elements: Seq<UiElement>, order: Seq<usize>, index: usize)
    requires
        index < elements.len(),
        forall|k: int| 0 <= k < order.len() ==> (#[trigger] order[k]) < index,
        forall|p: int, q: int|
            0 <= p < q < order.len() ==> reads_before(
                elements,
                (#[trigger] order[p]) as int,
                (#[trigger] order[q]) as int,
            ),
    ensures
        with_place_in_order(elements, order, index).len() == order.len() + 1,
        forall|p: int, q: int|
            0 <= p < q < order.len() + 1 ==> reads_before(
                elements,
                (#[trigger] with_place_in_order(elements, order, index)[p]) as int,
                (#[trigger] with_place_in_order(elements, order, index)[q]) as int,
            ),
        forall|i: usize|
            #![trigger with_place_in_order(elements, order, index).contains(i)]
            #![trigger order.contains(i)]
            with_place_in_order(elements, order, index).contains(i) <==> (order.contains(i) || i
                == index),
    decreases order.len(),
{
    let grown = with_place_in_order(elements, order, index);
    lemma_with_place_keeps_range(elements, order, index, (index + 1) as nat);
    if order.len() == 0 {
        assert forall|i: usize| grown.contains(i) <==> (order.contains(i) || i == index) by {
            if i == index {
                assert(grown[0] == i);
            }
        }
    } else if reads_after(elements[order.last() as int].position, elements[index as int].position) {
        let rest = order.drop_last();
        let inner = with_place_in_order(elements, rest, index);
        lemma_with_place_keeps_range(elements, rest, index, (index + 1) as nat);
        assert forall|p: int, q: int| 0 <= p < q < rest.len() implies reads_before(
            elements,
            (#[trigger] rest[p]) as int,
            (#[trigger] rest[q]) as int,
        ) by {
            assert(rest[p] == order[p] && rest[q] == order[q]);
        }
        lemma_with_place_keeps_reading_order(elements, rest, index);
        assert forall|p: int, q: int| 0 <= p < q < order.len() + 1 implies reads_before(
            elements,
            (#[trigger] grown[p]) as int,
            (#[trigger] grown[q]) as int,
        ) by {
            if q < order.len() {
                assert(grown[p] == inner[p] && grown[q] == inner[q]);
            } else {
                assert(grown[p] == inner[p]);
                assert(inner.contains(inner[p]));
                if inner[p] != index {
                    assert(rest.contains(inner[p]));
                    let at = choose|at: int| 0 <= at < rest.len() && rest[at] == inner[p];
                    assert(order[at] == inner[p]);
                    assert(reads_before(
                        elements,
                        order[at] as int,
                        order[order.len() - 1] as int,
                    ));
                }
            }
        }
        assert forall|i: usize| grown.contains(i) <==> (order.contains(i) || i == index) by {
            if grown.contains(i) {
                let at = choose|at: int| 0 <= at < grown.len() && grown[at] == i;
                if at < inner.len() {
                    assert(inner[at] == i);
                    assert(inner.contains(i));
                    if rest.contains(i) {
                        let r = choose|r: int| 0 <= r < rest.len() && rest[r] == i;
                        assert(order[r] == i);
                    }
                } else {
                    assert(order[order.len() - 1] == i);
                }
            }
            if i == index {
                assert(inner.contains(i));
                let at = choose|at: int| 0 <= at < inner.len() && inner[at] == i;
                assert(grown[at] == i);
            }
            if order.contains(i) {
                let r = choose|r: int| 0 <= r < order.len() && order[r] == i;
                if r < rest.len() {
                    assert(rest[r] == i);
                    assert(rest.contains(i));
                    assert(inner.contains(i));
                    let at = choose|at: int| 0 <= at < inner.len() && inner[at] == i;
                    assert(grown[at] == i);
                } else {
                    assert(grown[grown.len() - 1] == i);
                }
            }
        }
    } else {
        assert forall|p: int, q: int| 0 <= p < q < order.len() + 1 implies reads_before(
            elements,
            (#[trigger] grown[p]) as int,
            (#[trigger] grown[q]) as int,
        ) by {
            if q < order.len() {
                assert(grown[p] == order[p] && grown[q] == order[q]);
            } else {
                assert(grown[p] == order[p]);
                if p < order.len() - 1 {
                    assert(reads_before(elements, order[p] as int, order[order.len() - 1] as int));
                }
            }
        }
        assert forall|i: usize| grown.contains(i) <==> (order.contains(i) || i == index) by {
            if grown.contains(i) {
                let at = choose|at: int| 0 <= at < grown.len() && grown[at] == i;
                if at < order.len() {
                    assert(order[at] == i);
                }
            }
            if i == index {
                assert(grown[grown.len() - 1] == i);
            }
            if order.contains(i) {
                let r = choose|r: int| 0 <= r < order.len() && order[r] == i;
                assert(grown[r] == i);
            }
        }
    }
}

/// A reading order holds the place of every widget of the tab among the
/// first `n`, and of no other; and each place in it is read before the
/// places behind it.
pub proof fn lemma_reading_order_is_sorted(elements: Seq<UiElement>, tab_kind: TabKind, n: nat)
    requires
        n <= elements.len(),
        n <= usize::MAX,
    ensures
        forall|p: int, q: int|
            0 <= p < q < reading_order(elements, tab_kind, n).len() ==> reads_before(
                elements,
                (#[trigger] reading_order(elements, tab_kind, n)[p]) as int,
                (#[trigger] reading_order(elements, tab_kind, n)[q]) as int,
            ),
        forall|i: usize|
            #![trigger reading_order(elements, tab_kind, n).contains(i)]
            reading_order(elements, tab_kind, n).contains(i) <==> (i < n
                && elements[i as int].tab.tab_kind == tab_kind),
    decreases n,
{
    let order = reading_order(elements, tab_kind, n);
    if n > 0 {
        let before = reading_order(elements, tab_kind, (n - 1) as nat);
        lemma_reading_order_is_sorted(elements, tab_kind, (n - 1) as nat);
        lemma_reading_order_is_in_range(elements, tab_kind, (n - 1) as nat);
        if elements[n - 1].tab.tab_kind == tab_kind {
            lemma_with_place_keeps_reading_order(elements, before, (n - 1) as usize);
            assert forall|i: usize| #![trigger order.contains(i)] order.contains(i) <==> (i < n
                && elements[i as int].tab.tab_kind == tab_kind) by {
                assert(before.contains(i) <==> (i < n - 1 && elements[i as int].tab.tab_kind
                    == tab_kind));
            }
        } else {
            assert forall|i: usize| #![trigger order.contains(i)] order.contains(i) <==> (i < n
                && elements[i as int].tab.tab_kind == tab_kind) by {
                assert(before.contains(i) <==> (i < n - 1 && elements[i as int].tab.tab_kind
                    == tab_kind));
            }
        }
    } else {
        assert forall|i: usize| #![trigger order.contains(i)] !order.contains(i) by {}
    }
}

/// The places of the widgets on a tab, in reading order.
pub fn reading_order_of(world: &DesignerWorld, tab_kind: TabKind) -> (order: Vec<usize>)
    ensures
        order@ == reading_order(world@, tab_kind, world@.len()),
        forall|k: int| 0 <= k < order@.len() ==> (#[trigger] order@[k]) < world@.len(),
{
    let mut order: Vec<usize> = Vec::new();
    let n = world.elements.len();
    let mut i: usize = 0;
    while i < n
        invariant
            i <= n,
            n == world@.len(),
            order@ == reading_order(world@, tab_kind, i as nat),
            order@.len() <= i,
            forall|k: int| 0 <= k < order@.len() ==> (#[trigger] order@[k]) < i,
        decreases n - i,
    {
        if world.elements[i].tab.tab_kind == tab_kind {
            let here = world.elements[i].position;
            let mut pos: usize = order.len();
            while pos > 0 && (world.elements[order[pos - 1]].position.y > here.y || (
            world.elements[order[pos - 1]].position.y == here.y
                && world.elements[order[pos - 1]].position.x > here.x))
                invariant
                    pos <= order@.len(),
                    i < n,
                    n == world@.len(),
                    here == world@[i as int].position,
                    forall|k: int| 0 <= k < order@.len() ==> (#[trigger] order@[k]) < i,
                    forall|k: int|
                        pos <= k < order@.len() ==> reads_after(
                            world@[(#[trigger] order@[k]) as int].position,
                            here,
                        ),
                decreases pos,
            {
                pos -= 1;
            }
            proof {
                lemma_place_goes_in_at(world@, order@, i, pos as int);
                lemma_with_place_keeps_range(world@, order@, i, (i + 1) as nat);
            }
            order.insert(pos, i);
        }
        i += 1;
    }
    order
}

/// `written` and after it the source that places each widget of `order`,
/// every one followed by an empty line.
pub open spec fn with_elements_in_order(
    written: Seq<char>,
    level: nat,
    elements: Seq<UiElement>,
    order: Seq<usize>,
) -> Seq<char>
    decreases order.len(),
{
    if order.len() == 0 {
        written
    } else {
        with_line(
            with_positioned_element(
                with_elements_in_order(written, level, elements, order.drop_last()),
                level,
                elements[order.last() as int],
            ),
            level,
            ""@,
        )
    }
}

/// The source of the panel function `show_<function_name>_panel` with the
/// heading `panel_name`: it places every widget of the main work tab at its
/// position, in reading order.
pub open spec fn panel_function_text(
    elements: Seq<UiElement>,
    panel_name: Seq<char>,
    function_name: Seq<char>,
) -> Seq<char> {
    let text = with_line(Seq::<char>::empty(), 0, "use egui;"@);
    let text = with_line(text, 0, ""@);
    let text = with_quoted_line(
        text,
        0,
        "pub fn show_"@,
        function_name,
        "_panel(ui: &mut egui::Ui, app: &mut App) {"@,
    );
    let text = with_quoted_line(text, 1, "ui.heading(\""@, panel_name, "\");"@);
    let text = with_line(text, 1, "ui.separator();"@);
    let text = with_line(text, 1, ""@);
    let text = with_line(text, 1, "// Elements positioned exactly as in the designer"@);
    let text = with_elements_in_order(
        text,
        1,
        elements,
        reading_order(elements, TabKind::MainWork, elements.len()),
    );
    with_line(text, 0, "}"@)
}

/// The name of the field that the generated application keeps for a
/// widget. Buttons and group boxes have none.
pub open spec fn app_field_name(widget: WidgetKind) -> Option<Seq<char>> {
    match widget {
        WidgetKind::TextInput(text_input) => Some(field_name(text_input.label@)),
        WidgetKind::Checkbox(checkbox) => Some(flag_field_name(checkbox.label@)),
        WidgetKind::RadioButton(radio) => Some(radio.group_id@ + "_selection"@),
        _ => None,
    }
}

/// The type of the field that the generated application keeps for a
/// widget: a flag for a checkbox, text for the others.
pub open spec fn app_field_type(widget: WidgetKind) -> Seq<char> {
    match widget {
        WidgetKind::Checkbox(_) => "bool"@,
        _ => "String"@,
    }
}

/// A field of the generated application.
pub struct AppField {
    pub name: String,
    pub field_type: &'static str,
}

/// Whether a widget brings a field whose name is not among `seen`.
pub open spec fn brings_new_field(element: UiElement, seen: Seq<Seq<char>>) -> bool {
    &&& element.tab.tab_kind == TabKind::MainWork
    &&& app_field_name(element.widget) is Some
    &&& !seen.contains(app_field_name(element.widget)->0)
}

/// The names of the fields that the first `n` widgets bring, each once, in
/// the order in which they first occur.
pub open spec fn field_names(elements: Seq<UiElement>, n: nat) -> Seq<Seq<char>>
    decreases n,
{
    if n == 0 {
        Seq::<Seq<char>>::empty()
    } else if brings_new_field(elements[n - 1], field_names(elements, (n - 1) as nat)) {
        field_names(elements, (n - 1) as nat).push(app_field_name(elements[n - 1].widget)->0)
    } else {
        field_names(elements, (n - 1) as nat)
    }
}

/// `written` and after it one line for each field that the first `n`
/// widgets bring: the name, a colon, the type, a comma.
pub open spec fn with_app_fields(written: Seq<char>, level: nat, elements: Seq<UiElement>, n: nat) -> Seq<
    char,
>
    decreases n,
{
    if n == 0 {
        written
    } else if brings_new_field(elements[n - 1], field_names(elements, (n - 1) as nat)) {
        with_line(
            with_app_fields(written, level, elements, (n - 1) as nat),
            level,
            app_field_name(elements[n - 1].widget)->0 + ": "@ + app_field_type(
                elements[n - 1].widget,
            ) + ","@,
        )
    } else {
        with_app_fields(written, level, elements, (n - 1) as nat)
    }
}

/// Whether `name` is among `seen`.
pub fn is_seen(seen: &Vec<String>, name: &String) -> (found: bool)
    ensures
        found == texts_of(seen@).contains(name@),
{
    let mut k: usize = 0;
    while k < seen.len()
        invariant
            k <= seen@.len(),
            forall|j: int| 0 <= j < k ==> texts_of(seen@)[j] != name@,
        decreases seen@.len() - k,
    {
        if seen[k] == *name {
            assert(texts_of(seen@)[k as int] == name@);
            return true;
        }
        k += 1;
    }
    false
}

/// The field of a widget for the generated application, where it has one.
pub fn app_field_of(widget: &WidgetKind) -> (field: Option<AppField>)
    ensures
        field is Some <==> app_field_name(*widget) is Some,
        field is Some ==> field->0.name@ == app_field_name(*widget)->0 && field->0.field_type@
            == app_field_type(*widget),
{
    match widget {
        WidgetKind::TextInput(text_input) => {
            let lowered = to_lowercase(text_input.label.as_str());
            Some(AppField { name: field_name_from(lowered.as_str()), field_type: "String" })
        },
        WidgetKind::Checkbox(checkbox) => {
            let lowered = to_lowercase(checkbox.label.as_str());
            Some(AppField { name: flag_field_name_from(lowered.as_str()), field_type: "bool" })
        },
        WidgetKind::RadioButton(radio) => {
            let mut name = radio.group_id.clone();
            name.append("_selection");
            Some(AppField { name, field_type: "String" })
        },
        _ => None,
    }
}

/// The whole source of an application round the panel function of the main
/// work tab.
pub open spec fn full_app_text(elements: Seq<UiElement>) -> Seq<char> {
    let text = Seq::<char>::empty();
    let text = with_line(text, 0, "// Generated by Mobius Designer"@);
    let text = with_line(text, 0, "// This code provides a starting point for your egui application"@);
    let text = with_line(text, 0, ""@);
    let text = with_line(text, 0, "use eframe::egui;"@);
    let text = with_line(text, 0, ""@);
    let text = with_line(text, 0, "#[derive(Default)]"@);
    let text = with_line(text, 0, "pub struct App {"@);
    let text = with_app_fields(text, 1, elements, elements.len());
    let text = with_line(text, 0, "}"@);
    let text = with_line(text, 0, ""@);
    let text = with_line(text, 0, "impl App {"@);
    let text = with_line(text, 1, "pub fn new(_cc: &eframe::CreationContext<'_>) -> Self {"@);
    let text = with_line(text, 2, "Default::default()"@);
    let text = with_line(text, 1, "}"@);
    let text = with_line(text, 0, "}"@);
    let text = with_line(text, 0, ""@);
    let text = with_line(text, 0, "impl eframe::App for App {"@);
    let text = with_line(text, 1, "fn update(&mut self, ctx: &egui::Context, _frame: &mut eframe::Frame) {"@);
    let text = with_line(text, 2, "// Top menu bar"@);
    let text = with_line(text, 2, "egui::TopBottomPanel::top(\"top_panel\").show(ctx, |ui| {"@);
    let text = with_line(text, 3, "egui::menu::bar(ui, |ui| {"@);
    let text = with_line(text, 4, "ui.menu_button(\"File\", |ui| {"@);
    let text = with_line(text, 5, "if ui.button(\"New\").clicked() {"@);
    let text = with_line(text, 6, "// TODO: Implement new file"@);
    let text = with_line(text, 5, "}"@);
    let text = with_line(text, 5, "if ui.button(\"Open\").clicked() {"@);
    let text = with_line(text, 6, "// TODO: Implement open file"@);
    let text = with_line(text, 5, "}"@);
    let text = with_line(text, 5, "if ui.button(\"Save\").clicked() {"@);
    let text = with_line(text, 6, "// TODO: Implement save file"@);
    let text = with_line(text, 5, "}"@);
    let text = with_line(text, 4, "});"@);
    let text = with_line(text, 3, "});"@);
    let text = with_line(text, 2, "});"@);
    let text = with_line(text, 2, ""@);
    let text = with_line(text, 2, "// Main content area with generated UI"@);
    let text = with_line(text, 2, "egui::CentralPanel::default().show(ctx, |ui| {"@);
    let text = with_line(text, 3, "ui.heading(\"My Generated App\");"@);
    let text = with_line(text, 3, "ui.separator();"@);
    let text = with_line(text, 3, ""@);
    let text = with_line(text, 3, "// Call the generated panel function"@);
    let text = with_line(text, 3, "show_main_panel(ui, self);"@);
    let text = with_line(text, 2, "});"@);
    let text = with_line(text, 1, "}"@);
    let text = with_line(text, 0, "}"@);
    let text = with_line(text, 0, ""@);
    let text = text + panel_function_text(elements, "Main"@, field_name("Main"@));
    let text = with_line(text, 0, ""@);
    let text = with_line(text, 0, "fn main() -> Result<(), eframe::Error> {"@);
    let text = with_line(text, 1, "let options = eframe::NativeOptions {"@);
    let text = with_line(text, 2, "viewport: egui::ViewportBuilder::default().with_inner_size([800.0, 600.0]),"@);
    let text = with_line(text, 2, "..Default::default()"@);
    let text = with_line(text, 1, "};"@);
    let text = with_line(text, 1, ""@);
    let text = with_line(text, 1, "eframe::run_native("@);
    let text = with_line(text, 2, "\"My egui App\","@);
    let text = with_line(text, 2, "options,"@);
    let text = with_line(text, 2, "Box::new(|cc| Box::new(App::new(cc))),"@);
    let text = with_line(text, 1, ")"@);
    let text = with_line(text, 0, "}"@);
    text
}

impl CodeGenerator {
    /// Writes one line for each field that the widgets of the main work tab
    /// bring to the generated application.
    pub fn generate_app_fields(&mut self, world: &DesignerWorld)
        ensures
            final(self).code@ == with_app_fields(
                old(self).code@,
                old(self).indent_level as nat,
                world@,
                world@.len(),
            ),
            final(self).indent_level == old(self).indent_level,
    {
        let mut seen: Vec<String> = Vec::new();
        let n = world.elements.len();
        let mut i: usize = 0;
        assert(texts_of(seen@) =~= field_names(world@, 0));
        while i < n
            invariant
                i <= n,
                n == world@.len(),
                texts_of(seen@) == field_names(world@, i as nat),
                self.code@ == with_app_fields(
                    old(self).code@,
                    old(self).indent_level as nat,
                    world@,
                    i as nat,
                ),
                self.indent_level == old(self).indent_level,
            decreases n - i,
        {
            if world.elements[i].tab.tab_kind == TabKind::MainWork {
                match app_field_of(&world.elements[i].widget) {
                    Some(field) => {
                        if !is_seen(&seen, &field.name) {
                            let mut line = field.name.clone();
                            line.append(": ");
                            line.append(field.field_type);
                            line.append(",");
                            self.writeln(line.as_str());
                            let ghost before = seen@;
                            seen.push(field.name);
                            assert(texts_of(seen@) =~= texts_of(before).push(field.name@));
                        }
                    },
                    None => {},
                }
            }
            i += 1;
        }
    }

    /// Generates the panel function `show_<function_name>_panel` for the
    /// widgets of the main work tab, with the heading `panel_name`.
    pub fn generate_panel_function_named(world: &DesignerWorld, panel_name: &str, function_name: &str) -> (code:
        String)
        ensures
            code@ == panel_function_text(world@, panel_name@, function_name@),
    {
        let mut gen = CodeGenerator::new();
        gen.writeln("use egui;");
        gen.writeln("");
        gen.write_quoted_line(
            "pub fn show_",
            function_name,
            "_panel(ui: &mut egui::Ui, app: &mut App) {",
        );
        gen.indent_level += 1;
        gen.write_quoted_line("ui.heading(\"", panel_name, "\");");
        gen.writeln("ui.separator();");
        gen.writeln("");
        gen.writeln("// Elements positioned exactly as in the designer");
        let order = reading_order_of(world, TabKind::MainWork);
        let ghost start = gen.code@;
        let mut k: usize = 0;
        assert(order@.take(0) =~= Seq::<usize>::empty());
        while k < order.len()
            invariant
                k <= order@.len(),
                gen.indent_level == 1,
                forall|j: int| 0 <= j < order@.len() ==> (#[trigger] order@[j]) < world@.len(),
                gen.code@ == with_elements_in_order(start, 1, world@, order@.take(k as int)),
            decreases order@.len() - k,
        {
            proof {
                assert(order@.take(k + 1).drop_last() =~= order@.take(k as int));
            }
            gen.generate_positioned_element_code(&world.elements[order[k]]);
            gen.writeln("");
            k += 1;
        }
        assert(order@.take(order@.len() as int) =~= order@);
        gen.indent_level -= 1;
        gen.writeln("}");
        gen.code
    }

    /// Generates the panel function for the widgets of the main work tab.
    /// The function is named after the panel: in lowercase, with an
    /// underscore for each space.
    pub fn generate_panel_function(world: &DesignerWorld, panel_name: &str) -> (code: String)
        ensures
            code@ == panel_function_text(world@, panel_name@, field_name(panel_name@)),
    {
        let lowered = to_lowercase(panel_name);
        let function_name = field_name_from(lowered.as_str());
        CodeGenerator::generate_panel_function_named(world, panel_name, function_name.as_str())
    }

    /// Generates a whole application: the `App` with a field for each input
    /// widget, its menu bar and central panel, the panel function of the
    /// main work tab, and `main`.
    pub fn generate_full_app_code(world: &DesignerWorld) -> (code: String)
        ensures
            code@ == full_app_text(world@),
    {
        let mut gen = CodeGenerator::new();
        gen.writeln("// Generated by Mobius Designer");
        gen.writeln("// This code provides a starting point for your egui application");
        gen.writeln("");
        gen.writeln("use eframe::egui;");
        gen.writeln("");
        gen.writeln("#[derive(Default)]");
        gen.writeln("pub struct App {");
        gen.indent_level += 1;
        gen.generate_app_fields(world);
        gen.indent_level -= 1;
        gen.writeln("}");
        gen.writeln("");
        gen.writeln("impl App {");
        gen.indent_level += 1;
        gen.writeln("pub fn new(_cc: &eframe::CreationContext<'_>) -> Self {");
        gen.indent_level += 1;
        gen.writeln("Default::default()");
        gen.indent_level -= 1;
        gen.writeln("}");
        gen.indent_level -= 1;
        gen.writeln("}");
        gen.writeln("");
        gen.writeln("impl eframe::App for App {");
        gen.indent_level += 1;
        gen.writeln("fn update(&mut self, ctx: &egui::Context, _frame: &mut eframe::Frame) {");
        gen.indent_level += 1;
        gen.writeln("// Top menu bar");
        gen.writeln("egui::TopBottomPanel::top(\"top_panel\").show(ctx, |ui| {");
        gen.indent_level += 1;
        gen.writeln("egui::menu::bar(ui, |ui| {");
        gen.indent_level += 1;
        gen.writeln("ui.menu_button(\"File\", |ui| {");
        gen.indent_level += 1;
        gen.writeln("if ui.button(\"New\").clicked() {");
        gen.indent_level += 1;
        gen.writeln("// TODO: Implement new file");
        gen.indent_level -= 1;
        gen.writeln("}");
        gen.writeln("if ui.button(\"Open\").clicked() {");
        gen.indent_level += 1;
        gen.writeln("// TODO: Implement open file");
        gen.indent_level -= 1;
        gen.writeln("}");
        gen.writeln("if ui.button(\"Save\").clicked() {");
        gen.indent_level += 1;
        gen.writeln("// TODO: Implement save file");
        gen.indent_level -= 1;
        gen.writeln("}");
        gen.indent_level -= 1;
        gen.writeln("});");
        gen.indent_level -= 1;
        gen.writeln("});");
        gen.indent_level -= 1;
        gen.writeln("});");
        gen.writeln("");
        gen.writeln("// Main content area with generated UI");
        gen.writeln("egui::CentralPanel::default().show(ctx, |ui| {");
        gen.indent_level += 1;
        gen.writeln("ui.heading(\"My Generated App\");");
        gen.writeln("ui.separator();");
        gen.writeln("");
        gen.writeln("// Call the generated panel function");
        gen.writeln("show_main_panel(ui, self);");
        gen.indent_level -= 1;
        gen.writeln("});");
        gen.indent_level -= 1;
        gen.writeln("}");
        gen.indent_level -= 1;
        gen.writeln("}");
        gen.writeln("");
        let panel_code = CodeGenerator::generate_panel_function(world, "Main");
        gen.write_raw(panel_code.as_str());
        gen.writeln("");
        gen.writeln("fn main() -> Result<(), eframe::Error> {");
        gen.indent_level += 1;
        gen.writeln("let options = eframe::NativeOptions {");
        gen.indent_level += 1;
        gen.writeln("viewport: egui::ViewportBuilder::default().with_inner_size([800.0, 600.0]),");
        gen.writeln("..Default::default()");
        gen.indent_level -= 1;
        gen.writeln("};");
        gen.writeln("");
        gen.writeln("eframe::run_native(");
        gen.indent_level += 1;
        gen.writeln("\"My egui App\",");
        gen.writeln("options,");
        gen.writeln("Box::new(|cc| Box::new(App::new(cc))),");
        gen.indent_level -= 1;
        gen.writeln(")");
        gen.indent_level -= 1;
        gen.writeln("}");
        gen.code
    }
}

} // verus!
