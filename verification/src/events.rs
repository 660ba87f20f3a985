//! What passes between the designer and the worker that generates source,
//! and what each side does with it.

use vstd::prelude::*;
use crate::components::TabKind;
use crate::snapshot::CodeGenMode;

verus! {

/// What the designer asks of the worker.
#[derive(Debug, Clone, Copy, PartialEq, Eq, Structural)]
pub enum CodeGenEvent {
    /// Generate the source again, for one tab and in one mode.
    RegenerateCode { tab_kind: TabKind, mode: CodeGenMode },
    /// Forget what was generated.
    ClearCache,
    /// Stop working.
    Shutdown,
}

/// What the worker answers.
#[derive(Debug, PartialEq, Eq)]
pub enum CodeGenResponse {
    /// The source is ready.
    CodeReady { tab_kind: TabKind, mode: CodeGenMode, code: String, generation_time_ms: u64 },
    /// What was generated is forgotten.
    CacheCleared,
    /// The source could not be generated.
    Error { message: String },
}

/// What the designer knows of generated source: the latest text for each
/// mode, whether a request is on its way, and how long the latest
/// generation took.
#[derive(Debug, PartialEq, Eq)]
pub struct CodeGenState {
    pub full_app_code: String,
    pub panel_code: String,
    pub is_generating: bool,
    pub last_generation_time_ms: u64,
    pub code_hash: u64,
    pub needs_update: bool,
}

/// What the worker does next.
#[derive(Debug, PartialEq, Eq)]
pub enum CodeGenAction {
    /// Generate from the snapshot for this tab and in this mode, and answer
    /// with what comes of it.
    Generate { tab_kind: TabKind, mode: CodeGenMode },
    /// Answer with this response.
    Respond(CodeGenResponse),
    /// Answer nothing and stop.
    Stop,
}

impl CodeGenState {
    /// The state before anything was generated: no text, nothing on its
    /// way, and an update due.
    pub fn new() -> (state: CodeGenState)
        ensures
            state.full_app_code@ == Seq::<char>::empty(),
            state.panel_code@ == Seq::<char>::empty(),
            !state.is_generating,
            state.last_generation_time_ms == 0,
            state.code_hash == 0,
            state.needs_update,
    {
        CodeGenState {
            full_app_code: String::new(),
            panel_code: String::new(),
            is_generating: false,
            last_generation_time_ms: 0,
            code_hash: 0,
            needs_update: true,
        }
    }

    /// Notes that a request is on its way and gives the event to send to
    /// the worker.
    pub fn request_code_generation(&mut self, tab_kind: TabKind, mode: CodeGenMode) -> (event:
        CodeGenEvent)
        ensures
            event == (CodeGenEvent::RegenerateCode { tab_kind, mode }),
            *final(self) == (CodeGenState { is_generating: true, ..*old(self) }),
    {
        self.is_generating = true;
        CodeGenEvent::RegenerateCode { tab_kind, mode }
    }

    /// Notes that a request could not be sent.
    pub fn request_failed(&mut self)
        ensures
            *final(self) == (CodeGenState { is_generating: false, ..*old(self) }),
    {
        self.is_generating = false;
    }

    /// The text that stands for the mode.
    pub open spec fn spec_code(&self, mode: CodeGenMode) -> Seq<char> {
        match mode {
            CodeGenMode::FullApp => self.full_app_code@,
            CodeGenMode::PanelFunction => self.panel_code@,
        }
    }

    /// Takes in an answer of the worker. Source that is ready replaces the
    /// text of its mode, and its time the time of the latest generation;
    /// after it and after an error nothing is on its way any more. A
    /// cleared cache changes nothing.
    pub fn handle_response(&mut self, response: CodeGenResponse)
        ensures
            match response {
                CodeGenResponse::CodeReady { tab_kind, mode, code, generation_time_ms } => {
                    &&& final(self).spec_code(mode) == code@
                    &&& forall|other: CodeGenMode|
                        other != mode ==> final(self).spec_code(other) == old(self).spec_code(other)
                    &&& final(self).last_generation_time_ms == generation_time_ms
                    &&& !final(self).is_generating
                },
                CodeGenResponse::Error { message } => {
                    &&& *final(self) == (CodeGenState { is_generating: false, ..*old(self) })
                },
                CodeGenResponse::CacheCleared => *final(self) == *old(self),
            },
            final(self).code_hash == old(self).code_hash,
            final(self).needs_update == old(self).needs_update,
    {
        match response {
            CodeGenResponse::CodeReady { tab_kind, mode, code, generation_time_ms } => {
                match mode {
                    CodeGenMode::FullApp => {
                        self.full_app_code = code;
                    },
                    CodeGenMode::PanelFunction => {
                        self.panel_code = code;
                    },
                }
                self.last_generation_time_ms = generation_time_ms;
                self.is_generating = false;
            },
            CodeGenResponse::Error { message } => {
                self.is_generating = false;
            },
            CodeGenResponse::CacheCleared => {},
        }
    }

    /// The current text for a mode.
    pub fn get_code(&self, mode: &CodeGenMode) -> (code: String)
        ensures
            code@ == self.spec_code(*mode),
    {
        match mode {
            CodeGenMode::FullApp => self.full_app_code.clone(),
            CodeGenMode::PanelFunction => self.panel_code.clone(),
        }
    }

    /// Whether a request is on its way.
    pub fn is_generating(&self) -> (busy: bool)
        ensures
            busy == self.is_generating,
    {
        self.is_generating
    }

    /// How long the latest generation took, in milliseconds; nothing before
    /// the first one.
    pub fn get_last_generation_time(&self) -> (time: Option<u64>)
        ensures
            time == (if self.last_generation_time_ms > 0 {
                Some(self.last_generation_time_ms)
            } else {
                None
            }),
    {
        if self.last_generation_time_ms > 0 {
            Some(self.last_generation_time_ms)
        } else {
            None
        }
    }

    /// How long the latest generation took, in milliseconds; zero before
    /// the first one.
    pub fn last_generation_time_ms(&self) -> (time: u64)
        ensures
            time == self.last_generation_time_ms,
    {
        self.last_generation_time_ms
    }

    /// The text for a mode, or nothing while there is none yet.
    pub fn get_generated_code(&self, _tab_kind: TabKind, mode: CodeGenMode) -> (code: Option<String>)
        ensures
            code is Some <==> self.spec_code(mode).len() > 0,
            code is Some ==> code->0@ == self.spec_code(mode),
    {
        let code = self.get_code(&mode);
        if code.as_str().unicode_len() == 0 {
            None
        } else {
            Some(code)
        }
    }
}

/// What the worker does with an event: it generates where it is asked to
/// and has a snapshot, says so where it has none, confirms a cleared cache,
/// and stops on shutdown.
pub fn plan_codegen(event: &CodeGenEvent, has_snapshot: bool) -> (action: CodeGenAction)
    ensures
        match *event {
            CodeGenEvent::RegenerateCode { tab_kind, mode } => if has_snapshot {
                action == (CodeGenAction::Generate { tab_kind, mode })
            } else {
                &&& action is Respond
                &&& action->Respond_0 is Error
                &&& action->Respond_0->message@
                    == "No world snapshot available for code generation"@
            },
            CodeGenEvent::ClearCache => action == CodeGenAction::Respond(
                CodeGenResponse::CacheCleared,
            ),
            CodeGenEvent::Shutdown => action == CodeGenAction::Stop,
        },
{
    match event {
        CodeGenEvent::RegenerateCode { tab_kind, mode } => {
            if has_snapshot {
                CodeGenAction::Generate { tab_kind: *tab_kind, mode: *mode }
            } else {
                CodeGenAction::Respond(
                    CodeGenResponse::Error {
                        message: String::from_str(
                            "No world snapshot available for code generation",
                        ),
                    },
                )
            }
        },
        CodeGenEvent::ClearCache => CodeGenAction::Respond(CodeGenResponse::CacheCleared),
        CodeGenEvent::Shutdown => CodeGenAction::Stop,
    }
}

/// The answer to a request once generation has ended after
/// `generation_time_ms`: the source where there is one, else the reason
/// why there is none.
pub fn codegen_response(
    tab_kind: TabKind,
    mode: CodeGenMode,
    generated: Result<String, String>,
    generation_time_ms: u64,
) -> (response: CodeGenResponse)
    ensures
        match generated {
            Ok(code) => response == (CodeGenResponse::CodeReady {
                tab_kind,
                mode,
                code,
                generation_time_ms,
            }),
            Err(reason) => response is Error && response->message@ == "Code generation failed: "@
                + reason@,
        },
{
    match generated {
        Ok(code) => CodeGenResponse::CodeReady { tab_kind, mode, code, generation_time_ms },
        Err(reason) => {
            let mut message = String::from_str("Code generation failed: ");
            message.append(reason.as_str());
            CodeGenResponse::Error { message }
        },
    }
}

} // verus!
