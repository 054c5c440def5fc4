//! The holder of the privacy mode.

use crate::error::{BrowserError, BrowserErrorView, ErrorKind, outcome_of};
use crate::ipc::PrivacyMode;
use vstd::prelude::*;

verus! {

/// How often the browsing data is discarded on the way into a mode.
pub open spec fn clears_on_entry(mode: PrivacyMode) -> nat {
    if mode.clears_data() {
        1
    } else {
        0
    }
}

/// A mode that a holder was asked to take, and how that ended.
pub struct ModeTaken {
    pub mode: PrivacyMode,
    pub ended: Result<(), BrowserErrorView>,
}

/// What is known of a holder of the privacy mode.
pub struct SecurityModel {
    /// The mode in force.
    pub mode: PrivacyMode,
    /// How often the stored browsing data was discarded.
    pub clears: nat,
    /// The modes that the holder was asked to take, oldest first.
    pub asked: Seq<ModeTaken>,
}

/// The holder after it was asked to take a mode: the request is recorded
/// with its outcome; where it ended well, the mode is in force and the
/// browsing data was discarded if the mode asks for it; where it failed, the
/// mode in force and the browsing data are as before.
pub open spec fn entered(
    before: SecurityModel,
    mode: PrivacyMode,
    ended: Result<(), BrowserErrorView>,
) -> SecurityModel {
    SecurityModel {
        mode: if ended is Ok {
            mode
        } else {
            before.mode
        },
        clears: if ended is Ok {
            before.clears + clears_on_entry(mode)
        } else {
            before.clears
        },
        asked: before.asked.push(ModeTaken { mode, ended }),
    }
}

/// A holder of the privacy mode. Its failures are policy errors, and a
/// failure leaves the mode in force as it was.
pub trait SecurityManager: Send + Sync {
    /// What is known of the holder. It is spoken of in contracts and never
    /// computed when the program runs.
    spec fn model(&self) -> SecurityModel;

    /// Takes the mode and, for a private or a Tor session, discards the
    /// stored browsing data.
    fn set_privacy_mode(&mut self, mode: &PrivacyMode) -> (r: Result<(), BrowserError>)
        ensures
            final(self).model() == entered(old(self).model(), *mode, outcome_of(r)),
            r matches Err(e) ==> e.kind == ErrorKind::Policy,
    ;

    fn get_current_mode(&self) -> (mode: PrivacyMode)
        ensures
            mode == self.model().mode,
    ;

    /// Discards cookies, history, cache and local storage.
    fn clear_data(&mut self) -> (r: Result<(), BrowserError>)
        ensures
            final(self).model() == (SecurityModel {
                clears: if r is Ok {
                    old(self).model().clears + 1
                } else {
                    old(self).model().clears
                },
                ..old(self).model()
            }),
            r matches Err(e) ==> e.kind == ErrorKind::Policy,
    ;
}

/// A holder that keeps the mode and stores no browsing data of its own, so
/// that discarding it cannot fail.
pub struct DefaultSecurityManager {
    current_mode: PrivacyMode,
    cleared: Ghost<nat>,
    asked: Ghost<Seq<ModeTaken>>,
}

impl DefaultSecurityManager {
    pub fn new() -> (manager: Self)
        ensures
            manager.model() == (SecurityModel {
                mode: PrivacyMode::Normal,
                clears: 0,
                asked: Seq::empty(),
            }),
    {
        DefaultSecurityManager {
            current_mode: PrivacyMode::Normal,
            cleared: Ghost(0),
            asked: Ghost(Seq::empty()),
        }
    }
}

impl SecurityManager for DefaultSecurityManager {
    closed spec fn model(&self) -> SecurityModel {
        SecurityModel { mode: self.current_mode, clears: self.cleared@, asked: self.asked@ }
    }

    fn set_privacy_mode(&mut self, mode: &PrivacyMode) -> (r: Result<(), BrowserError>)
        ensures
            r is Ok,
    {
        self.current_mode = *mode;
        let r = if mode.requires_clear() {
            self.clear_data()
        } else {
            Ok(())
        };
        self.asked = Ghost(self.asked@.push(ModeTaken { mode: *mode, ended: outcome_of(r) }));
        r
    }

    fn get_current_mode(&self) -> (mode: PrivacyMode) {
        self.current_mode
    }

    fn clear_data(&mut self) -> (r: Result<(), BrowserError>)
        ensures
            r is Ok,
    {
        self.cleared = Ghost((self.cleared@ + 1) as nat);
        Ok(())
    }
}

} // verus!
