use vstd::prelude::*;

verus! {

/// A request that a caller may submit to the worker that owns the audio
/// session. `IsPlaying` asks for the running flag and changes nothing;
/// `Start` and `Stop` toggle the keep-alive session.
#[derive(Clone, Copy, PartialEq, Eq, Structural, Debug)]
pub enum AudioCommand {
    Start,
    Stop,
    IsPlaying,
}

/// The running flag after one command is applied to a session whose flag is
/// `running`, where `acquired` says whether a stream acquisition attempted
/// for this command succeeded. `Start` leaves a running session alone and
/// otherwise runs exactly when the acquisition succeeded; `Stop` always
/// leaves the session stopped; `IsPlaying` changes nothing.
pub open spec fn step(running: bool, c: AudioCommand, acquired: bool) -> bool {
    match c {
        AudioCommand::Start => running || acquired,
        AudioCommand::Stop => false,
        AudioCommand::IsPlaying => running,
    }
}

/// How many stream acquisitions one command triggers: exactly a `Start`
/// arriving while no session runs attempts one, whether or not it succeeds.
pub open spec fn acquisition_step(running: bool, c: AudioCommand) -> nat {
    if c is Start && !running {
        1
    } else {
        0
    }
}

/// How many stream releases one command triggers: exactly a `Stop`
/// arriving while a session runs releases the held stream.
pub open spec fn release_step(running: bool, c: AudioCommand) -> nat {
    if c is Stop && running {
        1
    } else {
        0
    }
}

/// The running flag after a whole command sequence is applied in order,
/// starting from `running`, when every acquisition attempt has the one
/// outcome `acquired`.
pub open spec fn run_from(running: bool, cmds: Seq<AudioCommand>, acquired: bool) -> bool
    decreases cmds.len(),
{
    if cmds.len() == 0 {
        running
    } else {
        step(run_from(running, cmds.drop_last(), acquired), cmds.last(), acquired)
    }
}

/// The number of stream acquisitions a command sequence triggers, applied
/// in order from `running`, when every acquisition attempt has the one
/// outcome `acquired`.
pub open spec fn acquisitions_in(running: bool, cmds: Seq<AudioCommand>, acquired: bool) -> nat
    decreases cmds.len(),
{
    if cmds.len() == 0 {
        0
    } else {
        acquisitions_in(running, cmds.drop_last(), acquired) + acquisition_step(
            run_from(running, cmds.drop_last(), acquired),
            cmds.last(),
        )
    }
}

/// The number of stream releases a command sequence triggers, applied in
/// order from `running`, when every acquisition attempt has the one
/// outcome `acquired`.
pub open spec fn releases_in(running: bool, cmds: Seq<AudioCommand>, acquired: bool) -> nat
    decreases cmds.len(),
{
    if cmds.len() == 0 {
        0
    } else {
        releases_in(running, cmds.drop_last(), acquired) + release_step(
            run_from(running, cmds.drop_last(), acquired),
            cmds.last(),
        )
    }
}

/// The error text reported when the output device cannot be opened.
pub open spec fn acquisition_failure_message() -> Seq<char> {
    "no audio output device could be opened"@
}

/// A stand-in for the audio controller wired to a counting double of the
/// OS audio subsystem: it applies commands to the running flag exactly as
/// the controller does, counts every stream acquisition attempt and every
/// release, and can be configured so that every acquisition attempt fails.
pub struct SessionSimulator {
    running: bool,
    acquisitions: u64,
    releases: u64,
    fail_acquisition: bool,
}

impl SessionSimulator {
    /// The running flag of the simulated session.
    pub closed spec fn running(self) -> bool {
        self.running
    }

    /// How many stream acquisitions have been attempted so far.
    pub closed spec fn acquisitions(self) -> u64 {
        self.acquisitions
    }

    /// How many stream releases have happened so far.
    pub closed spec fn releases(self) -> u64 {
        self.releases
    }

    /// Whether every acquisition attempt is configured to fail.
    pub closed spec fn failing(self) -> bool {
        self.fail_acquisition
    }

    /// A fresh session: not running, nothing acquired or released,
    /// acquisitions succeed.
    pub fn new() -> (s: Self)
        ensures
            !s.running(),
            s.acquisitions() == 0,
            s.releases() == 0,
            !s.failing(),
    {
        SessionSimulator { running: false, acquisitions: 0, releases: 0, fail_acquisition: false }
    }

    /// A fresh session whose underlying audio subsystem refuses every
    /// acquisition attempt.
    pub fn new_failing() -> (s: Self)
        ensures
            !s.running(),
            s.acquisitions() == 0,
            s.releases() == 0,
            s.failing(),
    {
        SessionSimulator { running: false, acquisitions: 0, releases: 0, fail_acquisition: true }
    }

    /// The running flag, with no side effect.
    pub fn is_playing(&self) -> (b: bool)
        ensures
            b == self.running(),
    {
        self.running
    }

    /// How many stream acquisitions have been attempted.
    pub fn acquisition_count(&self) -> (n: u64)
        ensures
            n == self.acquisitions(),
    {
        self.acquisitions
    }

    /// How many streams have been released.
    pub fn release_count(&self) -> (n: u64)
        ensures
            n == self.releases(),
    {
        self.releases
    }

    /// Start the session: a no-op when already running, otherwise one
    /// acquisition attempt whose failure is reported with a description
    /// and leaves the session stopped.
    pub fn start(&mut self) -> (r: Result<(), String>)
        requires
            old(self).acquisitions() < u64::MAX,
        ensures
            final(self).failing() == old(self).failing(),
            final(self).releases() == old(self).releases(),
            final(self).running() == step(
                old(self).running(),
                AudioCommand::Start,
                !old(self).failing(),
            ),
            final(self).acquisitions() == old(self).acquisitions() + acquisition_step(
                old(self).running(),
                AudioCommand::Start,
            ),
            r is Ok <==> (old(self).running() || !old(self).failing()),
            r matches Err(m) ==> m@ == acquisition_failure_message(),
    {
        if self.running {
            return Ok(());
        }
        self.acquisitions = self.acquisitions + 1;
        if self.fail_acquisition {
            return Err(String::from_str("no audio output device could be opened"));
        }
        self.running = true;
        Ok(())
    }

    /// Stop the session: releases the held stream when one is held,
    /// otherwise a no-op; never fails.
    pub fn stop(&mut self)
        requires
            old(self).releases() < u64::MAX,
        ensures
            final(self).failing() == old(self).failing(),
            final(self).acquisitions() == old(self).acquisitions(),
            !final(self).running(),
            final(self).releases() == old(self).releases() + release_step(
                old(self).running(),
                AudioCommand::Stop,
            ),
    {
        if self.running {
            self.releases = self.releases + 1;
        }
        self.running = false;
    }

    /// Apply one command: the worker's single turn on the simulated
    /// controller. Only a `Start` that must acquire and finds the
    /// subsystem failing reports an error.
    pub fn apply(&mut self, c: AudioCommand) -> (r: Result<(), String>)
        requires
            old(self).acquisitions() < u64::MAX,
            old(self).releases() < u64::MAX,
        ensures
            final(self).failing() == old(self).failing(),
            final(self).running() == step(old(self).running(), c, !old(self).failing()),
            final(self).acquisitions() == old(self).acquisitions() + acquisition_step(
                old(self).running(),
                c,
            ),
            final(self).releases() == old(self).releases() + release_step(old(self).running(), c),
            r is Ok <==> !(c is Start && !old(self).running() && old(self).failing()),
            r matches Err(m) ==> m@ == acquisition_failure_message(),
    {
        match c {
            AudioCommand::Start => self.start(),
            AudioCommand::Stop => {
                self.stop();
                Ok(())
            },
            AudioCommand::IsPlaying => Ok(()),
        }
    }

    /// Apply a whole command sequence in submission order.
    pub fn process(&mut self, cmds: &Vec<AudioCommand>)
        requires
            old(self).acquisitions() + cmds@.len() <= u64::MAX,
            old(self).releases() + cmds@.len() <= u64::MAX,
        ensures
            final(self).failing() == old(self).failing(),
            final(self).running() == run_from(old(self).running(), cmds@, !old(self).failing()),
            final(self).acquisitions() == old(self).acquisitions() + acquisitions_in(
                old(self).running(),
                cmds@,
                !old(self).failing(),
            ),
            final(self).releases() == old(self).releases() + releases_in(
                old(self).running(),
                cmds@,
                !old(self).failing(),
            ),
    {
        let mut i: usize = 0;
        while i < cmds.len()
            invariant
                i <= cmds@.len(),
                old(self).acquisitions() + cmds@.len() <= u64::MAX,
                old(self).releases() + cmds@.len() <= u64::MAX,
                self.failing() == old(self).failing(),
                self.running() == run_from(
                    old(self).running(),
                    cmds@.take(i as int),
                    !old(self).failing(),
                ),
                self.acquisitions() == old(self).acquisitions() + acquisitions_in(
                    old(self).running(),
                    cmds@.take(i as int),
                    !old(self).failing(),
                ),
                self.releases() == old(self).releases() + releases_in(
                    old(self).running(),
                    cmds@.take(i as int),
                    !old(self).failing(),
                ),
                self.acquisitions() <= old(self).acquisitions() + i,
                self.releases() <= old(self).releases() + i,
            decreases cmds@.len() - i,
        {
            let c = cmds[i];
            let _ = self.apply(c);
            proof {
                assert(cmds@.take(i as int + 1).drop_last() =~= cmds@.take(i as int));
                assert(cmds@.take(i as int + 1).last() == cmds@[i as int]);
            }
            i = i + 1;
        }
        proof {
            assert(cmds@.take(cmds@.len() as int) =~= cmds@);
        }
    }
}

/// Starting twice in a row is idempotent: the second `Start` finds the
/// session in the state the first one left, changes nothing, and attempts
/// no second acquisition, whatever state the session began in and whatever
/// the outcome of an acquisition would be.
pub proof fn lemma_start_idempotent(running: bool, acquired: bool)
    ensures
        step(step(running, AudioCommand::Start, acquired), AudioCommand::Start, acquired) == step(
            running,
            AudioCommand::Start,
            acquired,
        ),
        acquisitions_in(running, seq![AudioCommand::Start, AudioCommand::Start], true)
            == acquisitions_in(running, seq![AudioCommand::Start], true),
        acquisitions_in(false, seq![AudioCommand::Start, AudioCommand::Start], true) == 1,
{
    let twice = seq![AudioCommand::Start, AudioCommand::Start];
    let once = seq![AudioCommand::Start];
    assert(twice.drop_last() =~= once);
    assert(once.drop_last() =~= Seq::<AudioCommand>::empty());
    assert(acquisitions_in(false, Seq::<AudioCommand>::empty(), true) == 0);
    assert(run_from(false, Seq::<AudioCommand>::empty(), true) == false);
    assert(acquisitions_in(false, once, true) == 1);
    assert(run_from(false, once, true));
}

/// Stopping twice in a row is a no-op the second time: the second `Stop`
/// finds the session already stopped, leaves it stopped, and releases
/// nothing, whatever state the session began in.
pub proof fn lemma_stop_idempotent(running: bool, acquired: bool)
    ensures
        step(step(running, AudioCommand::Stop, acquired), AudioCommand::Stop, acquired) == step(
            running,
            AudioCommand::Stop,
            acquired,
        ),
        releases_in(running, seq![AudioCommand::Stop, AudioCommand::Stop], acquired)
            == releases_in(running, seq![AudioCommand::Stop], acquired),
{
    let twice = seq![AudioCommand::Stop, AudioCommand::Stop];
    let once = seq![AudioCommand::Stop];
    assert(twice.drop_last() =~= once);
    assert(once.drop_last() =~= Seq::<AudioCommand>::empty());
}

/// Processing a command sequence in two batches, in order, is the same as
/// processing the whole sequence at once: a worker that drains the queue
/// batch by batch, as interleaved submissions arrive, still applies the
/// globally observed submission order sequentially.
pub proof fn lemma_process_in_batches(
    running: bool,
    first: Seq<AudioCommand>,
    second: Seq<AudioCommand>,
    acquired: bool,
)
    ensures
        run_from(running, first + second, acquired) == run_from(
            run_from(running, first, acquired),
            second,
            acquired,
        ),
    decreases second.len(),
{
    if second.len() == 0 {
        assert(first + second =~= first);
    } else {
        lemma_process_in_batches(running, first, second.drop_last(), acquired);
        assert((first + second).drop_last() =~= first + second.drop_last());
        assert((first + second).last() == second.last());
    }
}

/// State consistency: for a command sequence drawn from `Start` and `Stop`
/// alone, processed from the initial not-running state with every
/// acquisition succeeding, the session runs afterwards exactly when the
/// sequence is non-empty and ends in a `Start`.
pub proof fn lemma_final_state(cmds: Seq<AudioCommand>)
    requires
        forall|i: int| 0 <= i < cmds.len() ==> cmds[i] !is IsPlaying,
    ensures
        run_from(false, cmds, true) == (cmds.len() > 0 && cmds.last() is Start),
{
    if cmds.len() > 0 {
        assert(cmds.last() is Start || cmds.last() is Stop);
    }
}

} // verus!
