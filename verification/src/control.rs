use vstd::prelude::*;

use crate::error::Error;

verus! {

/// The control surface's view of the engine: whether the output device has
/// been opened, and the remembered failure when opening it went wrong.
///
/// Initialization happens at most once; a failure is remembered so that
/// every later command fails fast with a clear error instead of silently
/// trying the device again. The device work itself happens outside the
/// engine; this state machine takes its outcome and decides everything
/// else.
pub struct Playback {
    /// Set once the output device has been opened.
    pub initialized: bool,
    /// The remembered device failure, if opening the device failed.
    pub init_error: Option<String>,
}

impl Playback {
    /// The two flags never hold together: a failed initialization does not
    /// count as an initialized engine.
    pub open spec fn inv(self) -> bool {
        self.initialized ==> self.init_error is None
    }

    /// An uninitialized control state.
    pub fn new() -> (p: Playback)
        ensures
            p.inv(),
            !p.initialized,
            p.init_error is None,
    {
        Playback { initialized: false, init_error: None }
    }

    /// Applies the outcome of opening the default output device. A second
    /// initialization is refused outright; a failed open is remembered and
    /// reported; a successful open marks the engine ready.
    pub fn on_initialize(&mut self, outcome: Result<(), String>) -> (r: Result<(), Error>)
        requires
            old(self).inv(),
        ensures
            final(self).inv(),
            old(self).initialized ==> {
                &&& (r matches Err(Error::AudioOutputError(m)) && m@
                    == "Audio playback already is initialized"@)
                &&& *final(self) == *old(self)
            },
            !old(self).initialized ==> match outcome {
                Ok(_) => {
                    &&& r is Ok
                    &&& final(self).initialized
                    &&& final(self).init_error is None
                },
                Err(e) => {
                    &&& (r matches Err(Error::AudioOutputError(m)) && m == e)
                    &&& !final(self).initialized
                    &&& (final(self).init_error matches Some(m) && m == e)
                },
            },
    {
        if self.initialized {
            return Err(
                Error::AudioOutputError(String::from_str("Audio playback already is initialized")),
            );
        }
        match outcome {
            Ok(_) => {
                self.initialized = true;
                self.init_error = None;
                Ok(())
            },
            Err(e) => {
                let remembered = e.clone();
                self.init_error = Some(remembered);
                Err(Error::AudioOutputError(e))
            },
        }
    }

    /// Whether a play, seek or stop command may proceed: only on an engine
    /// whose device opened. After a failed initialization every command
    /// fails fast with the remembered error; before any initialization it
    /// fails because nothing is ready yet.
    pub fn can_operate(&self) -> (r: Result<(), Error>)
        requires
            self.inv(),
        ensures
            self.initialized <==> (r is Ok),
            (self.init_error matches Some(e) ==> (r matches Err(Error::AudioOutputError(m)) && m
                == e)),
            ((!self.initialized && self.init_error is None) ==> (r matches Err(
                Error::AudioOutputError(m),
            ) && m@ == "Audio playback is not initialized"@)),
    {
        match &self.init_error {
            Some(e) => Err(Error::AudioOutputError(e.clone())),
            None => {
                if self.initialized {
                    Ok(())
                } else {
                    Err(
                        Error::AudioOutputError(
                            String::from_str("Audio playback is not initialized"),
                        ),
                    )
                }
            },
        }
    }
}

} // verus!
