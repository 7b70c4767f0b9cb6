use vstd::prelude::*;

use crate::record::Level;
use crate::record::Record;
use crate::record::RecordModel;

verus! {

/// A misuse of the capture protocol: a loud, fatal condition, distinct from
/// the harmless "absent" result of popping an empty buffer.
#[derive(Clone, Copy, Debug, PartialEq, Eq, Structural)]
pub enum CaptureError {
    /// `begin_capture` was called on a thread state that is already
    /// capturing: capture is not reentrant per thread.
    AlreadyCaptured,
    /// `pop_captured` was called on an idle thread state, without a
    /// `begin_capture` before it.
    NotCaptured,
}

impl CaptureError {
    /// The message with which the enclosing test is to be aborted.
    pub fn message(&self) -> (message: &str)
        ensures
            *self is AlreadyCaptured ==> message@ == "already captured."@,
            *self is NotCaptured ==> message@ == "not captured."@,
    {
        match self {
            CaptureError::AlreadyCaptured => "already captured.",
            CaptureError::NotCaptured => "not captured.",
        }
    }
}

/// Per-thread capture state: either idle (no buffer, emitted records are
/// dropped) or capturing (a FIFO buffer of records, oldest first, possibly
/// empty).
pub struct CaptureController {
    buffer: Option<Vec<Record>>,
}

impl CaptureController {
    /// The thread state is capturing: a buffer exists, possibly empty.
    pub closed spec fn is_capturing(self) -> bool {
        self.buffer is Some
    }

    /// The thread state is idle: no buffer exists.
    pub open spec fn is_idle(self) -> bool {
        !self.is_capturing()
    }

    /// The buffered records in emission order, oldest first.
    pub closed spec fn captured(self) -> Seq<RecordModel>
        recommends
            self.is_capturing(),
    {
        self.buffer->Some_0@.map(|i: int, r: Record| r@)
    }

    /// A fresh thread state starts idle.
    pub fn new() -> (controller: CaptureController)
        ensures
            controller.is_idle(),
    {
        CaptureController { buffer: None }
    }
}

/// Begin capturing log.
///
/// On an idle thread state, transitions to capturing with a fresh empty
/// buffer. On a thread state that is already capturing, capture is not
/// reentrant: the state is left unchanged and the `AlreadyCaptured` misuse
/// error is returned, on which the caller must abort the enclosing test.
pub fn begin_capture(controller: &mut CaptureController) -> (result: Result<(), CaptureError>)
    ensures
        old(controller).is_idle() ==> result is Ok,
        old(controller).is_idle() ==> final(controller).is_capturing(),
        old(controller).is_idle() ==> final(controller).captured() =~= Seq::<RecordModel>::empty(),
        old(controller).is_capturing() ==> result is Err
            && result->Err_0 == CaptureError::AlreadyCaptured,
        old(controller).is_capturing() ==> *final(controller) == *old(controller),
{
    if controller.buffer.is_none() {
        controller.buffer = Some(Vec::new());
        Ok(())
    } else {
        Err(CaptureError::AlreadyCaptured)
    }
}

/// End capturing log.
///
/// Transitions the thread state to idle, discarding the buffer and any
/// un-popped records it holds. Idempotent: on an idle state it is a
/// harmless no-op and the state stays idle.
pub fn end_capture(controller: &mut CaptureController)
    ensures
        final(controller).is_idle(),
{
    controller.buffer = None;
}

/// Pop captured log record.
///
/// On an idle thread state this is a misuse: the state is left unchanged and
/// the `NotCaptured` error is returned, on which the caller must abort the
/// enclosing test. On a capturing state, removes and returns the oldest
/// buffered record, or `None` if the buffer is empty; the state stays
/// capturing either way.
pub fn pop_captured(controller: &mut CaptureController) -> (result: Result<
    Option<Record>,
    CaptureError,
>)
    ensures
        old(controller).is_idle() ==> result is Err
            && result->Err_0 == CaptureError::NotCaptured,
        old(controller).is_idle() ==> *final(controller) == *old(controller),
        old(controller).is_capturing() ==> final(controller).is_capturing(),
        old(controller).is_capturing() && old(controller).captured().len() == 0 ==> result is Ok
            && result->Ok_0 is None,
        old(controller).is_capturing() && old(controller).captured().len() == 0
            ==> *final(controller) == *old(controller),
        old(controller).is_capturing() && old(controller).captured().len() > 0 ==> result is Ok
            && result->Ok_0 is Some
            && result->Ok_0->Some_0@ == old(controller).captured()[0],
        old(controller).is_capturing() && old(controller).captured().len() > 0
            ==> final(controller).captured() =~= old(controller).captured().skip(1),
{
    match &mut controller.buffer {
        Some(queue) => {
            if queue.len() == 0 {
                Ok(None)
            } else {
                let record = queue.remove(0);
                Ok(Some(record))
            }
        },
        None => Err(CaptureError::NotCaptured),
    }
}

/// The sink handed to the logging facade: a stateless dispatcher onto the
/// explicit per-thread capture state.
pub struct Logger;

impl Logger {
    /// Every call site is eligible to log: capture makes no filtering
    /// decision at this layer.
    pub fn enabled(&self) -> (enabled: bool)
        ensures
            enabled,
    {
        true
    }

    /// Deliver one emitted record to a thread state: appended to the back of
    /// the buffer if the state is capturing, silently dropped (the state is
    /// unchanged, the record is never queued) if it is idle.
    pub fn log(&self, controller: &mut CaptureController, level: Level, message: String)
        ensures
            old(controller).is_capturing() ==> final(controller).is_capturing(),
            old(controller).is_capturing() ==> final(controller).captured()
                =~= old(controller).captured().push((RecordModel { level, message: message@ })),
            old(controller).is_idle() ==> *final(controller) == *old(controller),
    {
        match &mut controller.buffer {
            Some(queue) => {
                queue.push(Record::new(level, message));
            },
            None => {},
        }
    }

    /// Nothing to flush: captured records exist only in memory.
    pub fn flush(&self) {
    }
}

} // verus!
