//! Shows a rich-presence activity on Discord.
use vstd::prelude::*;
use vstd::string::*;
use crate::sources::{Source, picked_from};

verus! {

/// The activity details used when none is configured.
pub open spec fn default_status() -> Seq<char> {
    "Stroking their brains out~"@
}

/// The Discord effect.
#[derive(Debug)]
pub struct Discord {
    pub enabled: bool,
    /// Whether the activity carries a button linking to the project.
    pub shill: bool,
    /// The activity's details; empty means the default.
    pub status: String,
}

/// The activity shown: `state` over `details`, elapsed time counted from
/// `start` (seconds since the Unix epoch), the large image `large_image`
/// and an optional button (label, address).
#[derive(Debug)]
pub struct Activity {
    pub state: String,
    pub details: String,
    pub start: i64,
    pub large_image: String,
    pub button: Option<(String, String)>,
}

impl Discord {
    /// The default settings.
    pub open spec fn is_default(self) -> bool {
        &&& !self.enabled
        &&& self.shill
        &&& self.status@ == default_status()
    }

    /// The details line: the configured status, or the default one when it
    /// is empty.
    pub open spec fn details_for(self) -> Seq<char> {
        if self.status@.len() == 0 {
            default_status()
        } else {
            self.status@
        }
    }

    /// The activity for the line `text` started at `now`.
    pub open spec fn activity_for(self, text: Seq<char>, now: i64, a: Activity) -> bool {
        &&& a.state@ == text
        &&& a.details@ == self.details_for()
        &&& a.start == now
        &&& a.large_image@ == "icon"@
        &&& if self.shill {
            (a.button matches Some((label, url)) && label@ == "Join me~"@ && url@
                == "https://horse.wang/"@)
        } else {
            a.button is None
        }
    }

    /// The activity showing `text`, started at `now`.
    pub fn activity(&self, text: String, now: i64) -> (a: Activity)
        ensures
            self.activity_for(text@, now, a),
    {
        let details = if self.status.as_str().is_empty() {
            String::from_str("Stroking their brains out~")
        } else {
            self.status.clone()
        };
        let button = if self.shill {
            Some((String::from_str("Join me~"), String::from_str("https://horse.wang/")))
        } else {
            None
        };
        Activity { state: text, details, start: now, large_image: String::from_str("icon"), button }
    }

    /// The activity the effect shows when started at `now`: a first-person
    /// line of `source` over the details.
    pub fn run<S: Source>(&self, source: &S, now: i64) -> (a: Activity)
        ensures
            picked_from(source.first_person_lines(), a.state@),
            self.activity_for(a.state@, now, a),
    {
        let text = source.first_person();
        self.activity(text, now)
    }
}

impl Default for Discord {
    fn default() -> (r: Self)
        ensures
            r.is_default(),
    {
        Discord {
            enabled: false,
            shill: true,
            status: String::from_str("Stroking their brains out~"),
        }
    }
}

} // verus!
