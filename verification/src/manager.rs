use vstd::prelude::*;

use crate::channel::send_msg;
use crate::events::PlaybackEvent;
use crate::worker::WorkerMsg;

verus! {

/// Ghost record of one command or event the manager handed to a channel,
/// kept in order so that contracts can state exactly what each call sent.
pub enum ManagerCmd {
    /// `Stop` handed to the replaced session's worker.
    StopPrevious,
    /// `Seek` handed to the active session's worker.
    SeekTo { millis: u64 },
    /// `Stop` handed to the active session's worker.
    StopCurrent,
    /// The optimistic position report handed to the event channel.
    Report { path: String, millis: u64 },
}

/// The playback orchestrator: it tracks the single active session (file
/// path plus the handle of its decode worker) and forwards seek and stop
/// requests to it. At most one session is active; starting a new one stops
/// the previous worker first. Building the source chain and installing it
/// into the device sink happen in the unverified layer around the engine;
/// every session-management decision is here, and the ghost `handed` log
/// records every message and event the manager put on a channel.
pub struct PlaybackManager {
    /// The event channel toward the controller, used for the optimistic
    /// position report a seek sends.
    pub event_send: crossbeam_channel::Sender<PlaybackEvent>,
    /// The active session: the playing file's path and the sending half of
    /// its worker's message queue.
    pub current: Option<(String, crossbeam_channel::Sender<WorkerMsg>)>,
    /// Ghost log of every command and event handed to a channel, in order.
    pub handed: Ghost<Seq<ManagerCmd>>,
}

impl PlaybackManager {
    /// A manager with no active session.
    pub fn new(event_send: crossbeam_channel::Sender<PlaybackEvent>) -> (m: PlaybackManager)
        ensures
            m.current is None,
            m.event_send == event_send,
            m.handed@ =~= Seq::<ManagerCmd>::empty(),
    {
        PlaybackManager { event_send, current: None, handed: Ghost(Seq::empty()) }
    }

    /// The path of the playing file, or nothing when no session is active.
    pub fn playing_file(&self) -> (r: Option<String>)
        ensures
            (r is Some) <==> (self.current is Some),
            (self.current matches Some(c) ==> (r matches Some(p) && p == c.0)),
    {
        match &self.current {
            Some((path, _)) => Some(path.clone()),
            None => None,
        }
    }

    /// Makes `path` the active session, served by the worker behind
    /// `worker_send`. Any previous session's worker is handed a `Stop`
    /// first: starting a new stream means "stop previous, then start new",
    /// never concurrent mixing. A worker whose queue is gone is already
    /// dead, so a failed stop is a no-op.
    pub fn start_session(
        &mut self,
        path: String,
        worker_send: crossbeam_channel::Sender<WorkerMsg>,
    )
        ensures
            (final(self).current matches Some(c) && c.0 == path && c.1 == worker_send),
            final(self).event_send == old(self).event_send,
            old(self).current is Some ==> final(self).handed@ == old(self).handed@.push(
                ManagerCmd::StopPrevious,
            ),
            old(self).current is None ==> final(self).handed@ == old(self).handed@,
    {
        if let Some((_, old_worker)) = &self.current {
            let _ = send_msg(old_worker, WorkerMsg::Stop);
            self.handed = Ghost(self.handed@.push(ManagerCmd::StopPrevious));
        }
        self.current = Some((path, worker_send));
    }

    /// Forwards a seek to the active session's worker and immediately
    /// hands the requested position to the event channel as an optimistic
    /// report, so the controller's display follows the request without
    /// waiting for the decoder to catch up (the report may race slightly
    /// with decoding). Without an active session nothing is handed over;
    /// returns whether a session existed.
    pub fn seek(&mut self, position_ms: u64) -> (r: bool)
        ensures
            r == (old(self).current is Some),
            final(self).current == old(self).current,
            final(self).event_send == old(self).event_send,
            (old(self).current matches Some(c) ==> final(self).handed@ == old(self).handed@
                + seq![
                ManagerCmd::SeekTo { millis: position_ms },
                ManagerCmd::Report { path: c.0, millis: position_ms },
            ]),
            old(self).current is None ==> *final(self) == *old(self),
    {
        match &self.current {
            Some((path, worker)) => {
                let _ = send_msg(worker, WorkerMsg::Seek(position_ms));
                let ghost gpath: String = *path;
                let p = path.clone();
                let _ = send_msg(
                    &self.event_send,
                    PlaybackEvent::Position { path: p, position_ms },
                );
                self.handed = Ghost(
                    self.handed@ + seq![
                        ManagerCmd::SeekTo { millis: position_ms },
                        ManagerCmd::Report { path: gpath, millis: position_ms },
                    ],
                );
                true
            },
            None => false,
        }
    }

    /// Seeks only when `path` names the playing file; any other path is a
    /// no-op that hands nothing over. Returns whether the seek was
    /// forwarded.
    pub fn seek_file(&mut self, path: &String, position_ms: u64) -> (r: bool)
        ensures
            r == (old(self).current matches Some(c) && c.0@ == path@),
            final(self).current == old(self).current,
            final(self).event_send == old(self).event_send,
            (old(self).current matches Some(c) ==> (c.0@ == path@ ==> final(self).handed@ == old(
                self,
            ).handed@ + seq![
                ManagerCmd::SeekTo { millis: position_ms },
                ManagerCmd::Report { path: c.0, millis: position_ms },
            ])),
            !(old(self).current matches Some(c) && c.0@ == path@) ==> *final(self) == *old(self),
    {
        let matches_path = match &self.current {
            Some((playing, _)) => *playing == *path,
            None => false,
        };
        if matches_path {
            self.seek(position_ms)
        } else {
            false
        }
    }

    /// Hands `Stop` to the active session's worker; the session stays
    /// recorded, as a stopped stream still names the file it played.
    /// Without an active session nothing is handed over; returns whether a
    /// session existed.
    pub fn stop(&mut self) -> (r: bool)
        ensures
            r == (old(self).current is Some),
            final(self).current == old(self).current,
            final(self).event_send == old(self).event_send,
            old(self).current is Some ==> final(self).handed@ == old(self).handed@.push(
                ManagerCmd::StopCurrent,
            ),
            old(self).current is None ==> *final(self) == *old(self),
    {
        match &self.current {
            Some((_, worker)) => {
                let _ = send_msg(worker, WorkerMsg::Stop);
                self.handed = Ghost(self.handed@.push(ManagerCmd::StopCurrent));
                true
            },
            None => false,
        }
    }

    /// Stops only when `path` names the playing file; any other path is a
    /// no-op that hands nothing over. Returns whether the stop was
    /// forwarded.
    pub fn stop_file(&mut self, path: &String) -> (r: bool)
        ensures
            r == (old(self).current matches Some(c) && c.0@ == path@),
            final(self).current == old(self).current,
            final(self).event_send == old(self).event_send,
            (old(self).current matches Some(c) ==> (c.0@ == path@ ==> final(self).handed@ == old(
                self,
            ).handed@.push(ManagerCmd::StopCurrent))),
            !(old(self).current matches Some(c) && c.0@ == path@) ==> *final(self) == *old(self),
    {
        let matches_path = match &self.current {
            Some((playing, _)) => *playing == *path,
            None => false,
        };
        if matches_path {
            self.stop()
        } else {
            false
        }
    }
}

/// Whether a decoded source must be adapted before the sink can play it:
/// exactly when its rate or its channel count differs from the sink's.
/// A source that matches the sink on both is played directly.
pub fn needs_adaptation(
    source_rate: u32,
    source_channels: u32,
    sink_rate: u32,
    sink_channels: u32,
) -> (r: bool)
    ensures
        r == (source_rate != sink_rate || source_channels != sink_channels),
{
    source_rate != sink_rate || source_channels != sink_channels
}

} // verus!
