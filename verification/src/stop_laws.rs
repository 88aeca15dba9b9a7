//! What a shutdown comes to as a whole: what is done, on what and in which order, and
//! what is left and told at the end.

use crate::session::RecordingSession;
use crate::stop::{
    begun, event_of, first_stage, place, progress_of, session_after, session_claimed,
    shutdown_goes_forward, waiting_text, SaveResult, Shutdown, SpeechEngine, StopOutcome,
    StopReply, StopStage, TaskEnd,
};
use crate::text::{decimal, occurs_at, occurs_in};
use crate::text_laws::{decimal_reads_back, number};
use vstd::prelude::*;

verus! {

/// A piece of work, with what it is done on.
pub enum Work<M, T, L> {
    CloseCompactWindow(bool),
    /// Send the event of a name, to one window or to every window.
    Send(Seq<char>, Option<Seq<char>>),
    /// Send the event of a name with the progress: its stage, its message and a
    /// percentage.
    SendProgress(Seq<char>, Seq<char>, Seq<char>, u8),
    StopStreams(M),
    Await(T),
    RemoveListener(L),
    AskProvider,
    Unload(SpeechEngine),
    Report(M),
    Save(M),
    StopDiarization,
    UpdateTray,
}

/// What a shutdown finds around it: the answer to everything that it asks for.
#[verifier::reject_recursive_types(M)]
#[verifier::reject_recursive_types(T)]
pub struct Surroundings<M, T> {
    pub streams: spec_fn(M) -> Result<(), String>,
    pub task: spec_fn(T) -> TaskEnd,
    pub provider: Option<String>,
    /// What comes of saving, the folder and the name of the meeting.
    pub save: spec_fn(M) -> (SaveResult, Option<String>, Option<String>),
}

/// The work that the stage of a shutdown asks for.
pub open spec fn work_of<M, T, L>(shutdown: Shutdown<M, T, L>) -> Work<M, T, L> {
    match shutdown.stage {
        StopStage::CloseCompactWindow => Work::CloseCompactWindow(shutdown.restore_main),
        StopStage::StopStreams => Work::StopStreams(shutdown.manager->0),
        StopStage::AwaitTask => Work::Await(shutdown.task->0),
        StopStage::RemoveListener => Work::RemoveListener(shutdown.listener->0),
        StopStage::AskProvider => Work::AskProvider,
        StopStage::UnloadModel(engine) => Work::Unload(engine),
        StopStage::ReportMeeting => Work::Report(shutdown.manager->0),
        StopStage::SaveRecording => Work::Save(shutdown.manager->0),
        StopStage::StopDiarization => Work::StopDiarization,
        StopStage::UpdateTray => Work::UpdateTray,
        stage => match (progress_of(shutdown), event_of(stage)) {
            (Some((name, message, percentage)), Some((event, None))) => Work::SendProgress(
                event,
                name,
                message,
                percentage,
            ),
            (None, Some((event, window))) => Work::Send(event, window),
            _ => Work::UpdateTray,
        },
    }
}

impl<M, T> Surroundings<M, T> {
    /// What comes of a piece of work.
    pub open spec fn reply<L>(self, work: Work<M, T, L>) -> StopReply {
        match work {
            Work::StopStreams(manager) => StopReply::Streams((self.streams)(manager)),
            Work::Await(task) => StopReply::TaskEnded((self.task)(task)),
            Work::AskProvider => StopReply::Provider(self.provider),
            Work::Save(manager) => {
                let (result, folder, name) = (self.save)(manager);
                StopReply::Saved { result, folder, name }
            },
            _ => StopReply::Done,
        }
    }
}

/// The work of a shutdown until its end, the shutdown then, and the session then.
#[verifier::opaque]
pub open spec fn outcome<M, T, L>(
    shutdown: Shutdown<M, T, L>,
    session: RecordingSession<M, T, L>,
    around: Surroundings<M, T>,
) -> (Seq<Work<M, T, L>>, Shutdown<M, T, L>, RecordingSession<M, T, L>)
    decreases 17 - place(shutdown.stage),
{
    if shutdown.stage is Finished {
        (Seq::empty(), shutdown, session)
    } else {
        let work = work_of(shutdown);
        let reply = around.reply(work);
        let next = shutdown.after(session, reply);
        proof {
            shutdown_goes_forward(shutdown, session, reply);
        }
        let rest = outcome(next, session_after(session, shutdown.stage, next.stage), around);
        (seq![work] + rest.0, rest.1, rest.2)
    }
}

/// A piece of work on something, if it is there.
pub open spec fn on<A, M, T, L>(thing: Option<A>, work: spec_fn(A) -> Work<M, T, L>) -> Seq<
    Work<M, T, L>,
> {
    match thing {
        Some(thing) => seq![work(thing)],
        None => Seq::empty(),
    }
}

/// The progress that is told of, under the one event for it.
pub open spec fn tell<M, T, L>(name: Seq<char>, message: Seq<char>, percentage: u8) -> Work<M, T, L> {
    Work::SendProgress("recording-shutdown-progress"@, name, message, percentage)
}

/// The streams stopped cleanly, and the recording was saved.
pub open spec fn all_went_well<M, T>(manager: Option<M>, around: Surroundings<M, T>) -> bool {
    match manager {
        Some(manager) => {
            let (result, _, _) = (around.save)(manager);
            (around.streams)(manager) is Ok && result is Saved
        },
        None => false,
    }
}

/// What is done once the recording is over.
pub open spec fn last_work<M, T, L>(well: bool) -> Seq<Work<M, T, L>> {
    seq![
        Work::StopDiarization,
        tell(
            "complete"@,
            if well {
                "Recording stopped successfully"@
            } else {
                "Recording stopped, but audio finalization reported an error"@
            },
            100,
        ),
        Work::Send("recording-stopped"@, None),
        Work::UpdateTray,
        Work::Send("recording-stop-complete"@, Some("main"@)),
    ]
}

/// What is done once nothing transcribes any more.
pub open spec fn work_at_the_end<M, T, L>(
    manager: Option<M>,
    well: bool,
    around: Surroundings<M, T>,
) -> Seq<Work<M, T, L>> {
    seq![
        tell("unloading_model"@, "Unloading speech recognition model..."@, 70),
        Work::AskProvider,
        Work::Unload(
            if around.provider is Some && around.provider->0@ == "parakeet"@ {
                SpeechEngine::Parakeet
            } else {
                SpeechEngine::Whisper
            },
        ),
    ] + on(manager, |m: M| Work::Report(m)) + seq![
        tell("finalizing"@, "Finalizing recording and cleaning up resources..."@, 90),
    ] + on(manager, |m: M| Work::Save(m)) + last_work::<M, T, L>(well)
}

/// What is done once nothing is captured any more.
pub open spec fn work_after_capture<M, T, L>(
    session: RecordingSession<M, T, L>,
    manager: Option<M>,
    well: bool,
    around: Surroundings<M, T>,
) -> Seq<Work<M, T, L>> {
    seq![
        tell("processing_transcripts"@, "Processing remaining transcript chunks..."@, 40),
    ] + on(session.transcription_task, |t: T| Work::Await(t)) + on(
        session.transcript_listener,
        |l: L| Work::RemoveListener(l),
    ) + work_at_the_end(manager, well, around)
}

/// Everything that is done to stop a recording, in order: capture ends first, then the
/// queue is transcribed, then the listener leaves, then the model is unloaded, and the
/// recording is saved before anyone is told that it is over.
pub open spec fn work_of_shutdown<M, T, L>(
    session: RecordingSession<M, T, L>,
    restore_main: bool,
    around: Surroundings<M, T>,
) -> Seq<Work<M, T, L>> {
    seq![
        Work::CloseCompactWindow(restore_main),
        tell("stopping_audio"@, "Stopping audio capture..."@, 20),
    ] + on(session.manager, |m: M| Work::StopStreams(m)) + work_after_capture(
        session,
        session.manager,
        all_went_well(session.manager, around),
        around,
    )
}

// ---------------------------------------------------------------------------
// Lemmas
// ---------------------------------------------------------------------------

/// A shutdown at its end.
spec fn ended<M, T, L>(
    shutdown: Shutdown<M, T, L>,
    around: Surroundings<M, T>,
) -> Shutdown<M, T, L> {
    let stage = StopStage::Finished(StopOutcome::Completed);
    match shutdown.manager {
        Some(manager) => {
            let (save, folder, name) = (around.save)(manager);
            Shutdown { stage, manager: None, save, folder, name, ..shutdown }
        },
        None => Shutdown { stage, ..shutdown },
    }
}

proof fn lemma_from_diarization<M, T, L>(
    shutdown: Shutdown<M, T, L>,
    session: RecordingSession<M, T, L>,
    around: Surroundings<M, T>,
)
    requires
        shutdown.stage is StopDiarization,
    ensures
        outcome(shutdown, session, around) == (
            last_work::<M, T, L>(shutdown.save_failure() is None),
            Shutdown { stage: StopStage::Finished(StopOutcome::Completed), ..shutdown },
            RecordingSession { is_stopping: false, ..session },
        ),
{
    let done = StopStage::Finished(StopOutcome::Completed);
    let over = RecordingSession { is_stopping: false, ..session };
    let end = Shutdown { stage: done, ..shutdown };
    let last = Shutdown { stage: StopStage::NotifyMain, ..shutdown };
    let tray = Shutdown { stage: StopStage::UpdateTray, ..shutdown };
    let told = Shutdown { stage: StopStage::TellStopped, ..shutdown };
    let complete = Shutdown { stage: StopStage::TellComplete, ..shutdown };
    lemma_done(end, over, around);
    lemma_step(last, session, around, end, over);
    lemma_step(tray, session, around, last, session);
    lemma_step(told, session, around, tray, session);
    lemma_step(complete, session, around, told, session);
    lemma_step(shutdown, session, around, complete, session);
    assert(outcome(shutdown, session, around).0 =~= last_work::<M, T, L>(
        shutdown.save_failure() is None,
    ));
}

proof fn lemma_from_finalizing<M, T, L>(
    shutdown: Shutdown<M, T, L>,
    session: RecordingSession<M, T, L>,
    around: Surroundings<M, T>,
)
    requires
        shutdown.stage is TellFinalizing,
    ensures
        ({
            let end = ended(shutdown, around);
            &&& outcome(shutdown, session, around).0 == seq![
                tell::<M, T, L>(
                    "finalizing"@,
                    "Finalizing recording and cleaning up resources..."@,
                    90,
                ),
            ] + on(shutdown.manager, |m: M| Work::Save(m)) + last_work::<M, T, L>(end.save_failure() is None)
            &&& outcome(shutdown, session, around).1 == end
            &&& outcome(shutdown, session, around).2 == (RecordingSession {
                is_recording: false,
                is_stopping: false,
                ..session
            })
        }),
{
    let over = RecordingSession { is_recording: false, ..session };
    match shutdown.manager {
        Some(manager) => {
            let saving = Shutdown { stage: StopStage::SaveRecording, ..shutdown };
            let (save, folder, name) = (around.save)(manager);
            let saved = Shutdown {
                stage: StopStage::StopDiarization,
                manager: None,
                save,
                folder,
                name,
                ..shutdown
            };
            lemma_from_diarization(saved, over, around);
            lemma_step(saving, session, around, saved, over);
            lemma_step(shutdown, session, around, saving, session);
        },
        None => {
            let next = Shutdown { stage: StopStage::StopDiarization, ..shutdown };
            lemma_from_diarization(next, over, around);
            lemma_step(shutdown, session, around, next, over);
        },
    }
    assert(outcome(shutdown, session, around).0 =~= seq![
        tell::<M, T, L>(
            "finalizing"@,
            "Finalizing recording and cleaning up resources..."@,
            90,
        ),
    ] + on(shutdown.manager, |m: M| Work::Save(m)) + last_work::<M, T, L>(ended(shutdown, around).save_failure() is None));
}

/// One piece of work, and then the rest.
proof fn lemma_step<M, T, L>(
    shutdown: Shutdown<M, T, L>,
    session: RecordingSession<M, T, L>,
    around: Surroundings<M, T>,
    next: Shutdown<M, T, L>,
    then: RecordingSession<M, T, L>,
)
    requires
        !(shutdown.stage is Finished),
        next == shutdown.after(session, around.reply(work_of(shutdown))),
        then == session_after(session, shutdown.stage, next.stage),
    ensures
        outcome(shutdown, session, around).0 == seq![work_of(shutdown)] + outcome(
            next,
            then,
            around,
        ).0,
        outcome(shutdown, session, around).1 == outcome(next, then, around).1,
        outcome(shutdown, session, around).2 == outcome(next, then, around).2,
{
    reveal(outcome);
}

/// No work is left.
proof fn lemma_done<M, T, L>(
    shutdown: Shutdown<M, T, L>,
    session: RecordingSession<M, T, L>,
    around: Surroundings<M, T>,
)
    requires
        shutdown.stage is Finished,
    ensures
        outcome(shutdown, session, around) == (Seq::<Work<M, T, L>>::empty(), shutdown, session),
{
    reveal(outcome);
}

/// What is done once a model is unloaded.
spec fn work_after_unloading<M, T, L>(manager: Option<M>, well: bool) -> Seq<Work<M, T, L>> {
    on(manager, |m: M| Work::Report(m)) + seq![
        tell::<M, T, L>(
            "finalizing"@,
            "Finalizing recording and cleaning up resources..."@,
            90,
        ),
    ] + on(manager, |m: M| Work::Save(m)) + last_work::<M, T, L>(well)
}

proof fn lemma_from_unload<M, T, L>(
    shutdown: Shutdown<M, T, L>,
    session: RecordingSession<M, T, L>,
    around: Surroundings<M, T>,
    engine: SpeechEngine,
)
    requires
        shutdown.stage == StopStage::UnloadModel(engine),
    ensures
        ({
            let end = ended(shutdown, around);
            &&& outcome(shutdown, session, around).0 == seq![Work::<M, T, L>::Unload(engine)]
                + work_after_unloading::<M, T, L>(shutdown.manager, end.save_failure() is None)
            &&& outcome(shutdown, session, around).1 == end
            &&& outcome(shutdown, session, around).2 == (RecordingSession {
                is_recording: false,
                is_stopping: false,
                ..session
            })
        }),
{
    let end = ended(shutdown, around);
    let well = end.save_failure() is None;
    let finalizing = Shutdown { stage: StopStage::TellFinalizing, ..shutdown };
    lemma_from_finalizing(finalizing, session, around);
    assert(ended(finalizing, around) == end);
    if shutdown.manager is Some {
        let reporting = Shutdown { stage: StopStage::ReportMeeting, ..shutdown };
        lemma_step(reporting, session, around, finalizing, session);
        lemma_step(shutdown, session, around, reporting, session);
    } else {
        lemma_step(shutdown, session, around, finalizing, session);
    }
    assert(outcome(shutdown, session, around).0 =~= seq![Work::<M, T, L>::Unload(engine)]
        + work_after_unloading::<M, T, L>(shutdown.manager, well));
}

proof fn lemma_from_unloading<M, T, L>(
    shutdown: Shutdown<M, T, L>,
    session: RecordingSession<M, T, L>,
    around: Surroundings<M, T>,
)
    requires
        shutdown.stage is TellUnloading,
    ensures
        ({
            let end = ended(shutdown, around);
            &&& outcome(shutdown, session, around).0 == work_at_the_end::<M, T, L>(
                shutdown.manager,
                end.save_failure() is None,
                around,
            )
            &&& outcome(shutdown, session, around).1 == end
            &&& outcome(shutdown, session, around).2 == (RecordingSession {
                is_recording: false,
                is_stopping: false,
                ..session
            })
        }),
{
    let end = ended(shutdown, around);
    let well = end.save_failure() is None;
    let engine = if around.provider is Some && around.provider->0@ == "parakeet"@ {
        SpeechEngine::Parakeet
    } else {
        SpeechEngine::Whisper
    };
    let asking = Shutdown { stage: StopStage::AskProvider, ..shutdown };
    let unload = Shutdown { stage: StopStage::UnloadModel(engine), ..shutdown };
    lemma_step(shutdown, session, around, asking, session);
    lemma_step(asking, session, around, unload, session);
    lemma_from_unload(unload, session, around, engine);
    assert(ended(unload, around) == end);
    assert(outcome(shutdown, session, around).0 =~= work_at_the_end::<M, T, L>(
        shutdown.manager,
        well,
        around,
    ));
}

/// A shutdown that is done with its task.
proof fn lemma_from_listener<M, T, L>(
    shutdown: Shutdown<M, T, L>,
    session: RecordingSession<M, T, L>,
    around: Surroundings<M, T>,
)
    ensures
        ({
            let gone = RecordingSession { transcript_listener: None::<L>, ..session };
            let after = outcome(shutdown.without_task(session), gone, around);
            let end = ended(Shutdown { task: None::<T>, listener: None::<L>, ..shutdown }, around);
            &&& after.0 == on(session.transcript_listener, |l: L| Work::RemoveListener(l))
                + work_at_the_end::<M, T, L>(
                shutdown.manager,
                end.save_failure() is None,
                around,
            )
            &&& after.1 == end
            &&& after.2 == (RecordingSession {
                is_recording: false,
                is_stopping: false,
                transcript_listener: None::<L>,
                ..session
            })
        }),
{
    let gone = RecordingSession { transcript_listener: None::<L>, ..session };
    let bare = Shutdown { task: None::<T>, listener: None::<L>, ..shutdown };
    let end = ended(bare, around);
    let next = shutdown.without_task(session);
    let telling = Shutdown { stage: StopStage::TellUnloading, ..bare };
    lemma_from_unloading(telling, gone, around);
    assert(ended(telling, around) == end);
    if session.transcript_listener is Some {
        lemma_step(next, gone, around, telling, gone);
    } else {
        assert(next == telling);
    }
    assert(outcome(next, gone, around).0 =~= on(
        session.transcript_listener,
        |l: L| Work::RemoveListener(l),
    ) + work_at_the_end::<M, T, L>(shutdown.manager, end.save_failure() is None, around));
}

proof fn lemma_from_transcribing<M, T, L>(
    shutdown: Shutdown<M, T, L>,
    session: RecordingSession<M, T, L>,
    around: Surroundings<M, T>,
)
    requires
        shutdown.stage is TellTranscribing,
    ensures
        ({
            let after = outcome(shutdown, session, around);
            let end = ended(Shutdown { task: None::<T>, listener: None::<L>, ..shutdown }, around);
            &&& after.0 == work_after_capture::<M, T, L>(
                session,
                shutdown.manager,
                end.save_failure() is None,
                around,
            )
            &&& after.1 == end
            &&& after.2 == (RecordingSession {
                is_recording: false,
                is_stopping: false,
                transcription_task: None::<T>,
                transcript_listener: None::<L>,
                ..session
            })
        }),
{
    let end = ended(Shutdown { task: None::<T>, listener: None::<L>, ..shutdown }, around);
    let taken = RecordingSession { transcription_task: None::<T>, ..session };
    let gone = RecordingSession { transcript_listener: None::<L>, ..taken };
    if session.transcription_task is Some {
        let waiting = Shutdown {
            task: session.transcription_task,
            stage: StopStage::AwaitTask,
            ..shutdown
        };
        lemma_step(shutdown, session, around, waiting, taken);
        lemma_step(waiting, taken, around, waiting.without_task(taken), gone);
        lemma_from_listener(waiting, taken, around);
        assert(ended(Shutdown { task: None::<T>, listener: None::<L>, ..waiting }, around) == end);
    } else {
        lemma_step(shutdown, session, around, shutdown.without_task(session), gone);
        lemma_from_listener(shutdown, taken, around);
    }
    assert(outcome(shutdown, session, around).0 =~= work_after_capture::<M, T, L>(
        session,
        shutdown.manager,
        end.save_failure() is None,
        around,
    ));
}

// ---------------------------------------------------------------------------
// Laws
// ---------------------------------------------------------------------------

/// Stopping a recording does everything that there is to do, in order and on what the
/// session held, whatever fails; and leaves a session without a recording. A request
/// that finds no recording, or one that is being stopped, does nothing.
pub proof fn shutdown_does_everything_in_order<M, T, L>(
    session: RecordingSession<M, T, L>,
    restore_main: bool,
    around: Surroundings<M, T>,
)
    ensures
        ({
            let claimed = session_claimed(session);
            let begin = begun::<M, T, L>(first_stage(session), restore_main);
            let (work, end, left) = outcome(begin, claimed, around);
            if !session.is_recording {
                &&& work == Seq::<Work<M, T, L>>::empty()
                &&& end.stage == StopStage::Finished(StopOutcome::AlreadyStopped)
                &&& left == session
            } else if session.is_stopping {
                &&& work == Seq::<Work<M, T, L>>::empty()
                &&& end.stage == StopStage::Finished(StopOutcome::AlreadyStopping)
                &&& left == session
            } else {
                &&& work == work_of_shutdown(session, restore_main, around)
                &&& end.stage == StopStage::Finished(StopOutcome::Completed)
                &&& left == (RecordingSession::<M, T, L> {
                    is_recording: false,
                    is_stopping: false,
                    manager: None,
                    transcription_task: None,
                    transcript_listener: None,
                })
            }
        }),
{
    let claimed = session_claimed(session);
    let begin = begun::<M, T, L>(first_stage(session), restore_main);
    if session.is_recording && !session.is_stopping {
        lemma_whole(session, restore_main, around);
    } else {
        lemma_done(begin, claimed, around);
    }
}

/// What is told at the end of a shutdown follows from what came of its work: no error
/// exactly where a manager stopped its streams and saved the recording, the reasons
/// that were given otherwise; and the folder and the name of the meeting where the
/// manager has both.
pub proof fn shutdown_tells_what_came_of_it<M, T, L>(
    session: RecordingSession<M, T, L>,
    restore_main: bool,
    around: Surroundings<M, T>,
)
    requires
        session.is_recording,
        !session.is_stopping,
    ensures
        ({
            let begin = begun::<M, T, L>(first_stage(session), restore_main);
            let end = outcome(begin, session_claimed(session), around).1;
            &&& end.save_failure() is None <==> all_went_well(session.manager, around)
            &&& match session.manager {
                Some(manager) => {
                    let (result, folder, name) = (around.save)(manager);
                    &&& end.metadata() == if folder is Some && name is Some {
                        (folder, name)
                    } else {
                        (None, None)
                    }
                    &&& result matches SaveResult::Failed(why) ==> why@.is_suffix_of(
                        end.save_failure()->0,
                    )
                    &&& (around.streams)(manager) matches Err(why) ==> occurs_in(
                        end.save_failure()->0,
                        why@,
                    )
                },
                None => end.metadata() == (None::<String>, None::<String>),
            }
        }),
{
    lemma_whole(session, restore_main, around);
    let begin = begun::<M, T, L>(first_stage(session), restore_main);
    let end = outcome(begin, session_claimed(session), around).1;
    if let Some(manager) = session.manager {
        let (result, folder, name) = (around.save)(manager);
        let told = end.save_failure();
        if let SaveResult::Failed(why) = result {
            assert(told->0.subrange(told->0.len() - why@.len(), told->0.len() as int) =~= why@);
        }
        if let Err(why) = (around.streams)(manager) {
            let at = "Failed to stop audio streams cleanly: "@.len() as int;
            assert(told->0.subrange(at, at + why@.len()) =~= why@);
            assert(occurs_at(told->0, why@, at));
        }
    }
}

/// While the queue is transcribed, the seconds that it took so far can be read off what
/// is told, which is sent like all other progress.
pub proof fn waiting_tells_the_seconds(elapsed_secs: u64) -> (ends: (int, int))
    ensures
        0 <= ends.0 < ends.1 <= waiting_text(elapsed_secs).len(),
        number(waiting_text(elapsed_secs).subrange(ends.0, ends.1)) == elapsed_secs,
        waiting_text(elapsed_secs).skip(ends.1) == "s elapsed)"@,
        event_of(StopStage::AwaitTask) == event_of(StopStage::TellTranscribing),
{
    let text = waiting_text(elapsed_secs);
    let from = "Processing transcripts... ("@.len() as int;
    let to = from + decimal(elapsed_secs as nat).len();
    decimal_reads_back(elapsed_secs as nat);
    assert(text.subrange(from, to) =~= decimal(elapsed_secs as nat));
    assert(text.skip(to) =~= "s elapsed)"@);
    (from, to)
}

proof fn lemma_whole<M, T, L>(
    session: RecordingSession<M, T, L>,
    restore_main: bool,
    around: Surroundings<M, T>,
)
    requires
        session.is_recording,
        !session.is_stopping,
    ensures
        ({
            let begin = begun::<M, T, L>(first_stage(session), restore_main);
            let (work, end, left) = outcome(begin, session_claimed(session), around);
            &&& work == work_of_shutdown(session, restore_main, around)
            &&& end == ended(
                Shutdown {
                    manager: session.manager,
                    stream_error: match session.manager {
                        Some(manager) => match (around.streams)(manager) {
                            Ok(()) => None,
                            Err(why) => Some(why),
                        },
                        None => None,
                    },
                    ..begin
                },
                around,
            )
            &&& left == (RecordingSession::<M, T, L> {
                is_recording: false,
                is_stopping: false,
                manager: None,
                transcription_task: None,
                transcript_listener: None,
            })
        }),
{
    let claimed = session_claimed(session);
    let begin = begun::<M, T, L>(first_stage(session), restore_main);
    let taken = RecordingSession { manager: None::<M>, ..claimed };
    let telling = Shutdown { stage: StopStage::TellStopping, ..begin };
    let holding = Shutdown {
        manager: session.manager,
        stage: StopStage::TellTranscribing,
        stream_error: match session.manager {
            Some(manager) => match (around.streams)(manager) {
                Ok(()) => None,
                Err(why) => Some(why),
            },
            None => None,
        },
        ..begin
    };
    lemma_step(begin, claimed, around, telling, claimed);
    if session.manager is Some {
        let stopping = Shutdown {
            manager: session.manager,
            stage: StopStage::StopStreams,
            ..begin
        };
        lemma_step(telling, claimed, around, stopping, taken);
        lemma_step(stopping, taken, around, holding, taken);
    } else {
        lemma_step(telling, claimed, around, holding, taken);
    }
    lemma_from_transcribing(holding, taken, around);
    let end = ended(Shutdown { task: None::<T>, listener: None::<L>, ..holding }, around);
    assert(end.save_failure() is None == all_went_well(session.manager, around));
    let rest = outcome(holding, taken, around).0;
    assert(rest == work_after_capture::<M, T, L>(
        session,
        session.manager,
        all_went_well(session.manager, around),
        around,
    ));
    assert(outcome(begin, claimed, around).0 =~= seq![work_of(begin), work_of(telling)] + on(
        session.manager,
        |m: M| Work::<M, T, L>::StopStreams(m),
    ) + rest);
}

} // verus!
