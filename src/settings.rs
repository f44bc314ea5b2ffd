use vstd::prelude::*;

verus! {

/// User configuration: the global hotkey, the transcription backend and
/// whether final text is inserted automatically.
#[derive(Debug, Clone, PartialEq, Eq)]
pub struct AppSettings {
    pub global_hotkey: String,
    pub provider: String,
    pub auto_insert: bool,
}

impl AppSettings {
    /// The settings used when none are stored.
    pub open spec fn is_default(self) -> bool {
        &&& self.global_hotkey@ == "Option+Space"@
        &&& self.provider@ == "placeholder"@
        &&& self.auto_insert
    }
}

impl Default for AppSettings {
    fn default() -> (r: Self)
        ensures
            r.is_default(),
    {
        AppSettings {
            global_hotkey: String::from_str("Option+Space"),
            provider: String::from_str("placeholder"),
            auto_insert: true,
        }
    }
}

} // verus!
