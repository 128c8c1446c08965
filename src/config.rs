//! The session's configuration and the form that edits it.
use vstd::prelude::*;

use crate::text::{decimal, decimal_text, parse_u32, parsed_u32};

verus! {

/// The game to join and the size of the window.
#[derive(Copy, Clone, PartialEq, Eq, Hash, Debug, Structural)]
pub struct PistonConfig {
    /// The game id.
    pub id: u32,
    /// The width and height of the window in pixels.
    pub res: u32,
}

/// The configuration form: its two fields as the text the user typed.
#[derive(Clone, PartialEq, Eq, Debug)]
pub struct AsyncChessLauncher {
    /// The game id field.
    pub id: String,
    /// The window size field.
    pub res: String,
}

impl AsyncChessLauncher {
    /// A form filled from `start_uc`, or with id `0` and size `600` without one.
    pub fn new(start_uc: Option<PistonConfig>) -> (r: AsyncChessLauncher)
        ensures
            match start_uc {
                Some(c) => r.id@ == decimal(c.id as nat) && r.res@ == decimal(c.res as nat),
                None => r.id@ == "0"@ && r.res@ == "600"@,
            },
    {
        match start_uc {
            Some(c) => AsyncChessLauncher { id: decimal_text(c.id), res: decimal_text(c.res) },
            None => AsyncChessLauncher::default(),
        }
    }

    /// Empties each field whose text is not a number.
    pub fn clear_invalid(&mut self)
        ensures
            final(self).id@ == (if parsed_u32(old(self).id@) is Some {
                old(self).id@
            } else {
                Seq::<char>::empty()
            }),
            final(self).res@ == (if parsed_u32(old(self).res@) is Some {
                old(self).res@
            } else {
                Seq::<char>::empty()
            }),
    {
        if parse_u32(self.id.as_str()).is_none() {
            self.id = String::new();
        }
        if parse_u32(self.res.as_str()).is_none() {
            self.res = String::new();
        }
    }

    /// The configuration that the form holds, if both fields are numbers.
    pub fn to_config(&self) -> (r: Option<PistonConfig>)
        ensures
            r == (match (parsed_u32(self.id@), parsed_u32(self.res@)) {
                (Some(id), Some(res)) => Some(PistonConfig { id, res }),
                _ => None,
            }),
    {
        match (parse_u32(self.id.as_str()), parse_u32(self.res.as_str())) {
            (Some(id), Some(res)) => Some(PistonConfig { id, res }),
            _ => None,
        }
    }
}

impl Default for AsyncChessLauncher {
    fn default() -> (r: AsyncChessLauncher)
        ensures
            r.id@ == "0"@ && r.res@ == "600"@,
    {
        AsyncChessLauncher { id: String::from_str("0"), res: String::from_str("600") }
    }
}

} // verus!
