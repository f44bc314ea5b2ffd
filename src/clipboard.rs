use vstd::prelude::*;

verus! {

/// Delivers final text into the application that has the input focus.
pub trait ClipboardInserter: Send {
    fn insert_text(&self, text: &str) -> Result<(), String>;
}

/// The macOS inserter; it accepts every text and delivers it nowhere yet.
#[derive(Default)]
pub struct MacOsClipboardInserter;

impl ClipboardInserter for MacOsClipboardInserter {
    fn insert_text(&self, _text: &str) -> (r: Result<(), String>)
        ensures
            r == Ok::<(), String>(()),
    {
        Ok(())
    }
}

} // verus!
