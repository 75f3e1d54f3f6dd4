use crate::iscsi::{is_prompt, regex_finds, TARGETCLI_PROMPT};
use vstd::prelude::*;

verus! {

/// What reading an interactive process yields next.
#[derive(Debug)]
pub enum StreamEvent {
    /// A line arrived on standard output or standard error.
    Line(String),
    /// A read found nothing; the process may still be running.
    Empty,
    /// The process ended with this exit code.
    Exited(u32),
}

/// Reading an interactive process up to its next prompt: every line is
/// kept, and the wait ends at the first line that is the prompt or when
/// the process ends.
#[derive(Debug)]
pub struct PromptWatch {
    pub output: String,
}

impl PromptWatch {
    pub fn new() -> (r: PromptWatch)
        ensures
            r.output@ == Seq::<char>::empty(),
    {
        PromptWatch { output: String::new() }
    }

    /// Takes in `ev`: the output so far and the exit code once the wait is
    /// over, or none while it goes on.
    pub fn feed(&mut self, ev: StreamEvent) -> (r: Option<(String, Option<u32>)>)
        ensures
            match ev {
                StreamEvent::Line(l) => {
                    &&& final(self).output@ == old(self).output@ + l@
                    &&& regex_finds(TARGETCLI_PROMPT@, l@) ==> (r matches Some((o, None))
                        && o@ == final(self).output@)
                    &&& !regex_finds(TARGETCLI_PROMPT@, l@) ==> r is None
                },
                StreamEvent::Empty => final(self).output@ == old(self).output@ && r is None,
                StreamEvent::Exited(c) => final(self).output@ == old(self).output@ && (r matches Some(
                    (o, Some(code)),
                ) && o@ == old(self).output@ && code == c),
            },
    {
        match ev {
            StreamEvent::Line(l) => {
                self.output.append(l.as_str());
                if is_prompt(l.as_str()) {
                    Some((self.output.clone(), None))
                } else {
                    None
                }
            },
            StreamEvent::Empty => None,
            StreamEvent::Exited(c) => Some((self.output.clone(), Some(c))),
        }
    }
}

} // verus!
