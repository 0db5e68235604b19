//! Control decisions for the external audio player process.
//!
//! The player itself is a child process driven over its standard input; this
//! module only decides *what* to do — which commands to send, when to spawn
//! or respawn the process, and which stream of the URL table is current.
//! The caller owns the process handle, observes whether it is still running,
//! and performs each returned [`PlayerAction`] in order.

use vstd::prelude::*;

verus! {

/// Number of entries in the stream URL table kept by the caller.
pub const URL_COUNT: usize = 1;

/// What the caller has observed of the spawned player process.
#[derive(Clone, Copy, PartialEq, Eq, Structural, Debug)]
pub enum ProcessStatus {
    /// The process is still running.
    Running,
    /// The process has exited.
    Exited,
}

/// One command to write to the player's standard input.  URL-carrying
/// commands name the table entry by index; the caller renders the line.
#[derive(Clone, Copy, PartialEq, Eq, Structural, Debug)]
pub enum PlayerCmd {
    /// Set the startup volume.
    Volume,
    Play,
    Stop,
    VolDown,
    VolUp,
    /// Clear the playlist.
    Clear,
    /// Add the indexed stream URL and start playing it.
    Add(usize),
    /// Append the indexed stream URL without playing.
    Enqueue(usize),
    /// Append the local fallback track.
    EnqueueFallback,
    /// Loop over the playlist.
    LoopOn,
}

/// One step the caller must perform.
#[derive(Clone, Copy, PartialEq, Eq, Structural, Debug)]
pub enum PlayerAction {
    /// Spawn a fresh player process.
    Spawn,
    /// Wait briefly for the fresh process to accept commands.
    Settle,
    /// Write one command line to the process.
    Send(PlayerCmd),
}

/// Decision state of the player: whether a process has been spawned yet and
/// which URL table entry is current.
pub struct Player {
    /// True once a spawn has been requested; the show must go on, so a
    /// dead process is respawned rather than reported.
    pub started: bool,
    /// Index of the current stream in the URL table.
    pub current: usize,
}

/// A player state is well formed when its current index stays inside the
/// URL table.
pub open spec fn player_wf(p: Player) -> bool {
    p.current < URL_COUNT
}

/// The wrap-around step of the URL table index: forward to the next entry
/// or back to the previous one, in either case modulo the table size.
pub open spec fn next_url(current: int, next: bool) -> int {
    if next {
        if current + 1 >= URL_COUNT {
            0
        } else {
            current + 1
        }
    } else {
        if current == 0 {
            URL_COUNT - 1
        } else {
            current - 1
        }
    }
}

/// Commands that rebuild the playlist: clear it, queue the current stream
/// (starting it when `play`), and append the fallback track behind it.
pub open spec fn requeue_actions(current: usize, play: bool) -> Seq<PlayerAction> {
    seq![
        PlayerAction::Send(PlayerCmd::Clear),
        PlayerAction::Send(
            if play {
                PlayerCmd::Add(current)
            } else {
                PlayerCmd::Enqueue(current)
            },
        ),
        PlayerAction::Send(PlayerCmd::EnqueueFallback),
    ]
}

/// First-time configuration of a freshly spawned process: wait for it to
/// accept commands, rebuild the playlist without starting it, loop forever.
pub open spec fn setup_actions(current: usize) -> Seq<PlayerAction> {
    seq![PlayerAction::Settle] + requeue_actions(current, false) + seq![
        PlayerAction::Send(PlayerCmd::LoopOn),
    ]
}

/// Full cold start: spawn the process, set the startup volume, configure.
pub open spec fn init_actions(current: usize) -> Seq<PlayerAction> {
    seq![PlayerAction::Spawn, PlayerAction::Send(PlayerCmd::Volume)] + setup_actions(current)
}

/// Revival of a dead process: spawn again and configure.
pub open spec fn respawn_actions(current: usize) -> Seq<PlayerAction> {
    seq![PlayerAction::Spawn] + setup_actions(current)
}

/// What keeping the player alive takes: a cold start when none was ever
/// spawned, a respawn when the observed process has exited, nothing while
/// it runs.
pub open spec fn alive_actions(p: Player, status: ProcessStatus) -> Seq<PlayerAction> {
    if !p.started {
        init_actions(p.current)
    } else if status is Exited {
        respawn_actions(p.current)
    } else {
        Seq::<PlayerAction>::empty()
    }
}

impl Player {
    pub fn new() -> (r: Self)
        ensures
            !r.started,
            r.current == 0,
            player_wf(r),
    {
        Player { started: false, current: 0 }
    }

    /// The playlist-rebuild command sequence for the current stream.
    pub fn requeue(&self, play: bool) -> (acts: Vec<PlayerAction>)
        ensures
            acts@ == requeue_actions(self.current, play),
    {
        let mut acts: Vec<PlayerAction> = Vec::new();
        acts.push(PlayerAction::Send(PlayerCmd::Clear));
        if play {
            acts.push(PlayerAction::Send(PlayerCmd::Add(self.current)));
        } else {
            acts.push(PlayerAction::Send(PlayerCmd::Enqueue(self.current)));
        }
        acts.push(PlayerAction::Send(PlayerCmd::EnqueueFallback));
        proof {
            assert(acts@ =~= requeue_actions(self.current, play));
        }
        acts
    }

    /// The configuration sequence for a freshly spawned process.
    pub fn setup(&self) -> (acts: Vec<PlayerAction>)
        ensures
            acts@ == setup_actions(self.current),
    {
        let mut acts: Vec<PlayerAction> = Vec::new();
        acts.push(PlayerAction::Settle);
        let mut rest = self.requeue(false);
        acts.append(&mut rest);
        acts.push(PlayerAction::Send(PlayerCmd::LoopOn));
        proof {
            assert(acts@ =~= setup_actions(self.current));
        }
        acts
    }

    /// Cold start: spawn, set the volume, configure.  After this a process
    /// is considered spawned.
    pub fn init(&mut self) -> (acts: Vec<PlayerAction>)
        ensures
            acts@ == init_actions(old(self).current),
            final(self).started,
            final(self).current == old(self).current,
    {
        let mut acts: Vec<PlayerAction> = Vec::new();
        acts.push(PlayerAction::Spawn);
        acts.push(PlayerAction::Send(PlayerCmd::Volume));
        let mut rest = self.setup();
        acts.append(&mut rest);
        self.started = true;
        proof {
            assert(acts@ =~= init_actions(old(self).current));
        }
        acts
    }

    /// Revival after the process died: spawn again and configure.
    pub fn respawn(&mut self) -> (acts: Vec<PlayerAction>)
        ensures
            acts@ == respawn_actions(old(self).current),
            final(self).started,
            final(self).current == old(self).current,
    {
        let mut acts: Vec<PlayerAction> = Vec::new();
        acts.push(PlayerAction::Spawn);
        let mut rest = self.setup();
        acts.append(&mut rest);
        self.started = true;
        proof {
            assert(acts@ =~= respawn_actions(old(self).current));
        }
        acts
    }

    /// Keeps the player alive: cold start if never spawned, respawn if the
    /// observed process has exited, nothing while it runs.
    pub fn alive(&mut self, status: ProcessStatus) -> (acts: Vec<PlayerAction>)
        ensures
            acts@ == alive_actions(*old(self), status),
            final(self).started,
            final(self).current == old(self).current,
    {
        if !self.started {
            self.init()
        } else {
            match status {
                ProcessStatus::Exited => self.respawn(),
                ProcessStatus::Running => Vec::new(),
            }
        }
    }

    /// Starts playback, reviving the process first if needed.
    pub fn play(&mut self, status: ProcessStatus) -> (acts: Vec<PlayerAction>)
        ensures
            acts@ == alive_actions(*old(self), status).push(PlayerAction::Send(PlayerCmd::Play)),
            final(self).started,
            final(self).current == old(self).current,
    {
        let mut acts = self.alive(status);
        acts.push(PlayerAction::Send(PlayerCmd::Play));
        acts
    }

    /// Stops playback, reviving the process first if needed.
    pub fn stop(&mut self, status: ProcessStatus) -> (acts: Vec<PlayerAction>)
        ensures
            acts@ == alive_actions(*old(self), status).push(PlayerAction::Send(PlayerCmd::Stop)),
            final(self).started,
            final(self).current == old(self).current,
    {
        let mut acts = self.alive(status);
        acts.push(PlayerAction::Send(PlayerCmd::Stop));
        acts
    }

    /// Lowers the volume, reviving the process first if needed.
    pub fn voldown(&mut self, status: ProcessStatus) -> (acts: Vec<PlayerAction>)
        ensures
            acts@ == alive_actions(*old(self), status).push(
                PlayerAction::Send(PlayerCmd::VolDown),
            ),
            final(self).started,
            final(self).current == old(self).current,
    {
        let mut acts = self.alive(status);
        acts.push(PlayerAction::Send(PlayerCmd::VolDown));
        acts
    }

    /// Raises the volume, reviving the process first if needed.
    pub fn volup(&mut self, status: ProcessStatus) -> (acts: Vec<PlayerAction>)
        ensures
            acts@ == alive_actions(*old(self), status).push(PlayerAction::Send(PlayerCmd::VolUp)),
            final(self).started,
            final(self).current == old(self).current,
    {
        let mut acts = self.alive(status);
        acts.push(PlayerAction::Send(PlayerCmd::VolUp));
        acts
    }

    /// Steps to the next or previous stream of the URL table, wrapping at
    /// either end, and rebuilds the playlist so the new stream plays.
    pub fn change_url(&mut self, next: bool, status: ProcessStatus) -> (acts: Vec<PlayerAction>)
        requires
            player_wf(*old(self)),
        ensures
            player_wf(*final(self)),
            final(self).started,
            final(self).current == next_url(old(self).current as int, next),
            acts@ == alive_actions(*old(self), status) + requeue_actions(
                final(self).current,
                true,
            ),
    {
        let mut acts = self.alive(status);
        if next {
            self.current = self.current + 1;
            if self.current >= URL_COUNT {
                self.current = 0;
            }
        } else {
            if self.current == 0 {
                self.current = URL_COUNT - 1;
            } else {
                self.current = self.current - 1;
            }
        }
        let mut rest = self.requeue(true);
        acts.append(&mut rest);
        acts
    }
}

} // verus!
