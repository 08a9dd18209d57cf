//! The CAN traffic: which frames go out, what becomes of those that come in, and the
//! time reference that is kept from them.
use embassy_stm32::can::enums::FrameCreateError;
use embassy_stm32::can::frame::FdFrame;
use vstd::prelude::*;

verus! {

/// Marks the time requests of this board.
pub const TIMESYNC_REQ_ID: u8 = 3;

/// How often the time is requested, in seconds.
pub const REQ_INTERVAL_S: u64 = 10;

/// The highest standard CAN identifier.
pub const MAX_STANDARD_ID: u16 = 0x7FF;

/// `embassy_stm32::can::enums::FrameCreateError`: why a frame could not be made.
#[verifier::external_type_specification]
pub struct ExFrameCreateError(embassy_stm32::can::enums::FrameCreateError);

/// `embassy_stm32::can::frame::FdFrame`: a CAN FD frame, which holds an identifier and up
/// to 64 bytes.
#[verifier::external_type_specification]
#[verifier::external_body]
pub struct ExFdFrame(embassy_stm32::can::frame::FdFrame);

/// The bytes that a frame holds, as `FdFrame::data` gives them.
pub uninterp spec fn frame_data(frame: FdFrame) -> Seq<u8>;

/// The identifier that a frame was made with, where it is a standard one.
pub uninterp spec fn frame_standard_id(frame: FdFrame) -> Option<u16>;

/// Whether a frame asks for data in place of holding it, as `Header::rtr` says.
pub uninterp spec fn frame_is_remote(frame: FdFrame) -> bool;

/// Whether a frame is sent in the FD format, as `Header::fdcan` says.
pub uninterp spec fn frame_is_fd(frame: FdFrame) -> bool;

/// Whether the bit rate is raised for the data of a frame, as
/// `Header::bit_rate_switching` says.
pub uninterp spec fn frame_switches_bit_rate(frame: FdFrame) -> bool;

/// A frame that holds data and asks for neither the FD format nor a higher bit rate.
pub open spec fn is_plain_data_frame(frame: FdFrame) -> bool {
    &&& !frame_is_remote(frame)
    &&& !frame_is_fd(frame)
    &&& !frame_switches_bit_rate(frame)
}

/// The lengths that CAN FD can encode.
pub open spec fn is_fd_len(len: int) -> bool {
    ||| 0 <= len <= 8
    ||| len == 12
    ||| len == 16
    ||| len == 20
    ||| len == 24
    ||| len == 32
    ||| len == 48
    ||| len == 64
}

/// `FdFrame::new_standard` makes a frame of a standard identifier and data of a length
/// that CAN FD can encode, with none of the header's flags set. It refuses any other
/// identifier, and after that any other length.
#[verifier::external_body]
fn new_standard(raw_id: u16, raw_data: &[u8]) -> (frame: Result<FdFrame, FrameCreateError>)
    ensures
        frame is Ok <==> (raw_id <= MAX_STANDARD_ID && is_fd_len(raw_data@.len() as int)),
        frame is Ok ==> frame_standard_id(frame->Ok_0) == Some(raw_id),
        frame is Ok ==> frame_data(frame->Ok_0) == raw_data@,
        frame is Ok ==> !frame_is_remote(frame->Ok_0),
        frame is Ok ==> !frame_is_fd(frame->Ok_0),
        frame is Ok ==> !frame_switches_bit_rate(frame->Ok_0),
        frame is Err && raw_id > MAX_STANDARD_ID ==> frame->Err_0 is InvalidCanId,
        frame is Err && raw_id <= MAX_STANDARD_ID ==> frame->Err_0 is InvalidDataLength,
{
    FdFrame::new_standard(raw_id, raw_data)
}

/// `FdFrame::id` gives the identifier of a frame, and `StandardId::as_raw` its number
/// where it is a standard one.
#[verifier::external_body]
fn raw_standard_id(frame: &FdFrame) -> (id: Option<u16>)
    ensures
        id == frame_standard_id(*frame),
{
    match frame.id() {
        embedded_can::Id::Standard(id) => Some(id.as_raw()),
        embedded_can::Id::Extended(_) => None,
    }
}

/// An answer to a time request.
#[derive(Clone, Copy, Debug, PartialEq, Eq, Structural)]
pub struct TimesyncAnswer {
    /// The mark of the request that is answered.
    pub request_id: u8,
    /// How good the answer is: the lower, the better.
    pub priority: u8,
    /// The time, in microseconds of Unix time.
    pub unix_time: u64,
}

/// What is kept for the time reference. All times are in microseconds.
#[derive(Clone, Copy, Debug, PartialEq, Eq, Structural)]
pub struct TimesyncState {
    /// When the time was last requested.
    pub req_time: u64,
    /// The priority of the best answer to that request so far.
    pub req_ans_prio: u8,
    /// What has to be added to the local time.
    pub time_ref: u64,
}

impl TimesyncState {
    pub open spec fn requested(self, now: u64) -> Self {
        TimesyncState { req_time: now, req_ans_prio: u8::MAX, ..self }
    }

    /// An answer counts if it is to a request of this board, and better than all before.
    pub open spec fn accepts(self, answer: TimesyncAnswer) -> bool {
        answer.request_id == TIMESYNC_REQ_ID && answer.priority < self.req_ans_prio
    }

    /// The offset between the local time and the time answered, which was taken half the
    /// round trip before `received`; `now` is the local time at which this is worked out.
    pub open spec fn offset(self, answer: TimesyncAnswer, received: u64, now: u64) -> int {
        answer.unix_time + (received - self.req_time) / 2 - now
    }

    /// The offset can be worked out in unsigned 64 bit arithmetic.
    pub open spec fn offset_fits(self, answer: TimesyncAnswer, received: u64, now: u64) -> bool {
        &&& self.req_time <= received
        &&& answer.unix_time + (received - self.req_time) / 2 <= u64::MAX
        &&& 0 <= self.offset(answer, received, now)
    }

    pub open spec fn answered(self, answer: TimesyncAnswer, received: u64, now: u64) -> Self {
        if self.accepts(answer) {
            TimesyncState {
                req_ans_prio: answer.priority,
                time_ref: self.offset(answer, received, now) as u64,
                ..self
            }
        } else {
            self
        }
    }

    /// The state after a run of answers, each with its times `received` and `now`.
    pub open spec fn answered_all(self, run: Seq<(TimesyncAnswer, u64, u64)>) -> Self
        decreases run.len(),
    {
        if run.len() == 0 {
            self
        } else {
            let (answer, received, now) = run.last();
            self.answered_all(run.drop_last()).answered(answer, received, now)
        }
    }

    /// The state after a message was read.
    pub open spec fn read<C>(self, msg: ReadMsg<C>, received: u64, now: u64) -> Self {
        match msg {
            ReadMsg::TimesyncAnswer(Some(answer)) => self.answered(answer, received, now),
            _ => self,
        }
    }

    /// The state after a run of messages, each with its times `received` and `now`.
    pub open spec fn read_all<C>(self, run: Seq<(ReadMsg<C>, u64, u64)>) -> Self
        decreases run.len(),
    {
        if run.len() == 0 {
            self
        } else {
            let (msg, received, now) = run.last();
            self.read_all(run.drop_last()).read(msg, received, now)
        }
    }

    /// The commands that a run of messages passes on, first to last.
    pub open spec fn forwarded_all<C>(self, run: Seq<(ReadMsg<C>, u64, u64)>) -> Seq<C>
        decreases run.len(),
    {
        if run.len() == 0 {
            Seq::empty()
        } else {
            let (msg, received, now) = run.last();
            let before = run.drop_last();
            self.forwarded_all(before) + self.read_all(before).effect(
                msg,
                received,
                now,
            ).forwarded()
        }
    }

    /// What is left to do of a message that was read.
    pub open spec fn effect<C>(self, msg: ReadMsg<C>, received: u64, now: u64) -> CanEffect<C> {
        match msg {
            ReadMsg::TimesyncAnswer(Some(answer)) => if self.accepts(answer) {
                CanEffect::TimeRef(self.answered(answer, received, now).time_ref)
            } else {
                CanEffect::Nothing
            },
            ReadMsg::Telecommand(Some(cmd)) => CanEffect::Forward(cmd),
            _ => CanEffect::Nothing,
        }
    }
}

/// What the sender of CAN frames waits for.
pub enum SenderEvent<'a> {
    /// The time is to be requested, at this local time in microseconds.
    TimesyncDue { now: u64 },
    /// Telemetry is to be sent.
    Telemetry { id: u16, fd_bytes: &'a [u8] },
}

/// Makes a telemetry frame.
pub fn gen_tm_frame(id: u16, fd_bytes: &[u8]) -> (frame: FdFrame)
    requires
        id <= MAX_STANDARD_ID,
        is_fd_len(fd_bytes@.len() as int),
    ensures
        frame_standard_id(frame) == Some(id),
        frame_data(frame) == fd_bytes@,
        is_plain_data_frame(frame),
{
    new_standard(id, fd_bytes).unwrap()
}

/// The time reference of the board.
pub struct TimeSync {
    req_time: u64,
    req_ans_prio: u8,
    time_ref: u64,
}

impl View for TimeSync {
    type V = TimesyncState;

    closed spec fn view(&self) -> TimesyncState {
        TimesyncState {
            req_time: self.req_time,
            req_ans_prio: self.req_ans_prio,
            time_ref: self.time_ref,
        }
    }
}

impl TimeSync {
    /// No time was requested yet.
    pub fn new() -> (created: Self)
        ensures
            created@ == (TimesyncState { req_time: 0, req_ans_prio: 0, time_ref: 0 }),
    {
        TimeSync { req_time: 0, req_ans_prio: 0, time_ref: 0 }
    }

    /// What has to be added to the local time, in microseconds.
    pub fn time_ref(&self) -> (offset: u64)
        ensures
            offset == self@.time_ref,
    {
        self.time_ref
    }

    /// Makes a time request under the identifier of such messages, and notes that it goes
    /// out now.
    pub fn gen_timesync_frame(&mut self, request_msg_id: u16, now: u64) -> (frame: FdFrame)
        requires
            request_msg_id <= MAX_STANDARD_ID,
        ensures
            frame_standard_id(frame) == Some(request_msg_id),
            frame_data(frame) == seq![TIMESYNC_REQ_ID],
            is_plain_data_frame(frame),
            final(self)@ == old(self)@.requested(now),
    {
        let data: [u8; 1] = [TIMESYNC_REQ_ID];
        let frame = new_standard(request_msg_id, &data).unwrap();
        self.req_time = now;
        self.req_ans_prio = u8::MAX;
        assert(data@ =~= seq![TIMESYNC_REQ_ID]);
        frame
    }

    /// Makes the next frame to be sent.
    pub fn next_frame(&mut self, request_msg_id: u16, event: SenderEvent<'_>) -> (frame: FdFrame)
        requires
            event is TimesyncDue ==> request_msg_id <= MAX_STANDARD_ID,
            event matches SenderEvent::Telemetry { id, fd_bytes } ==> id <= MAX_STANDARD_ID
                && is_fd_len(fd_bytes@.len() as int),
        ensures
            is_plain_data_frame(frame),
            event matches SenderEvent::TimesyncDue { now } ==> final(self)@
                == old(self)@.requested(now) && frame_standard_id(frame) == Some(request_msg_id)
                && frame_data(frame) == seq![TIMESYNC_REQ_ID],
            event matches SenderEvent::Telemetry { id, fd_bytes } ==> final(self)@ == old(self)@
                && frame_standard_id(frame) == Some(id) && frame_data(frame) == fd_bytes@,
    {
        match event {
            SenderEvent::TimesyncDue { now } => self.gen_timesync_frame(request_msg_id, now),
            SenderEvent::Telemetry { id, fd_bytes } => gen_tm_frame(id, fd_bytes),
        }
    }

    /// Whether `update_time_ref` can be called with this answer at these times.
    pub fn can_update(&self, answer: &TimesyncAnswer, received: u64, now: u64) -> (possible: bool)
        ensures
            possible == (self@.accepts(*answer) ==> self@.offset_fits(*answer, received, now)),
    {
        if answer.request_id != TIMESYNC_REQ_ID || answer.priority >= self.req_ans_prio {
            return true;
        }
        if received < self.req_time {
            return false;
        }
        let half: u64 = (received - self.req_time) / 2;
        answer.unix_time <= u64::MAX - half && now <= answer.unix_time + half
    }

    /// Takes an answer that came in at the local time `received` into account. Gives the
    /// new time reference, or none if the answer does not count.
    pub fn update_time_ref(&mut self, answer: &TimesyncAnswer, received: u64, now: u64) -> (updated:
        Option<u64>)
        requires
            old(self)@.accepts(*answer) ==> old(self)@.offset_fits(*answer, received, now),
        ensures
            final(self)@ == old(self)@.answered(*answer, received, now),
            updated == (if old(self)@.accepts(*answer) {
                Some(final(self)@.time_ref)
            } else {
                None::<u64>
            }),
    {
        if answer.request_id != TIMESYNC_REQ_ID || answer.priority >= self.req_ans_prio {
            return None;
        }
        self.req_ans_prio = answer.priority;
        let transfer_time: u64 = received - self.req_time;
        let time_ref: u64 = answer.unix_time + transfer_time / 2 - now;
        self.time_ref = time_ref;
        Some(time_ref)
    }

    /// Works a message off that came in at the local time `received`, once it was read.
    pub fn finish_can_msg<C>(&mut self, msg: ReadMsg<C>, received: u64, now: u64) -> (effect:
        CanEffect<C>)
        requires
            msg matches ReadMsg::TimesyncAnswer(Some(answer)) ==> old(self)@.accepts(answer)
                ==> old(self)@.offset_fits(answer, received, now),
        ensures
            final(self)@ == old(self)@.read(msg, received, now),
            effect == old(self)@.effect(msg, received, now),
    {
        match msg {
            ReadMsg::TimesyncAnswer(Some(answer)) => {
                match self.update_time_ref(&answer, received, now) {
                    Some(time_ref) => CanEffect::TimeRef(time_ref),
                    None => CanEffect::Nothing,
                }
            },
            ReadMsg::Telecommand(Some(cmd)) => CanEffect::Forward(cmd),
            _ => CanEffect::Nothing,
        }
    }
}

/// The number by which the kind of a received frame is looked up, if it has one.
pub fn message_id(frame: &FdFrame) -> (id: Option<u16>)
    ensures
        id == frame_standard_id(*frame),
{
    raw_standard_id(frame)
}

/// The kinds of messages that come in over CAN.
#[derive(Clone, Copy, Debug, PartialEq, Eq, Structural)]
pub enum MsgKind {
    TimesyncAnswer,
    Telecommand,
    Other,
}

/// What becomes of a message.
#[derive(Clone, Copy, Debug, PartialEq, Eq, Structural)]
pub enum CanAction {
    /// Read it as an answer to a time request.
    UpdateTimeRef,
    /// Read it as a telecommand and pass that on.
    ForwardTelecommand,
    /// Nothing.
    Ignore,
    /// Give up: no message without a standard identifier can come in.
    NoStandardId,
    /// Give up: no message of an identifier that is not defined can come in.
    UnknownId,
}

/// What becomes of a message of some kind.
pub open spec fn action_for(kind: MsgKind) -> CanAction {
    match kind {
        MsgKind::TimesyncAnswer => CanAction::UpdateTimeRef,
        MsgKind::Telecommand => CanAction::ForwardTelecommand,
        MsgKind::Other => CanAction::Ignore,
    }
}

/// What becomes of a frame with this standard identifier, if it has one, which is looked up
/// as this kind, if it is defined.
pub open spec fn frame_action(id: Option<u16>, kind: Option<MsgKind>) -> CanAction {
    match (id, kind) {
        (None, _) => CanAction::NoStandardId,
        (Some(_), None) => CanAction::UnknownId,
        (Some(_), Some(kind)) => action_for(kind),
    }
}

/// Decides what becomes of a frame. `kind` is what its `message_id` is looked up as, or none
/// where it is not defined. What the frame was read as goes to `TimeSync::finish_can_msg`.
pub fn handle_can_msg(frame: &FdFrame, kind: Option<MsgKind>) -> (action: CanAction)
    ensures
        action == frame_action(frame_standard_id(*frame), kind),
{
    if message_id(frame).is_none() {
        return CanAction::NoStandardId;
    }
    match kind {
        Some(MsgKind::TimesyncAnswer) => CanAction::UpdateTimeRef,
        Some(MsgKind::Telecommand) => CanAction::ForwardTelecommand,
        Some(MsgKind::Other) => CanAction::Ignore,
        None => CanAction::UnknownId,
    }
}

/// Decides what becomes of the next thing that came in over CAN: a frame, or none where the
/// bus reported an error, after which nothing is done and the next one is waited for.
pub fn handle_received(frame: Option<&FdFrame>, kind: Option<MsgKind>) -> (action: CanAction)
    ensures
        action == match frame {
            Some(frame) => frame_action(frame_standard_id(*frame), kind),
            None => CanAction::Ignore,
        },
{
    match frame {
        Some(frame) => handle_can_msg(frame, kind),
        None => CanAction::Ignore,
    }
}

/// A message with what it was read as; none where it could not be read.
#[derive(Clone, Copy, Debug, PartialEq, Eq)]
pub enum ReadMsg<C> {
    TimesyncAnswer(Option<TimesyncAnswer>),
    Telecommand(Option<C>),
    Other,
}

impl<C> ReadMsg<C> {
    pub open spec fn kind(self) -> MsgKind {
        match self {
            ReadMsg::TimesyncAnswer(_) => MsgKind::TimesyncAnswer,
            ReadMsg::Telecommand(_) => MsgKind::Telecommand,
            ReadMsg::Other => MsgKind::Other,
        }
    }
}

/// What is left to do of a message that was read.
#[derive(Clone, Copy, Debug, PartialEq, Eq)]
pub enum CanEffect<C> {
    /// Nothing.
    Nothing,
    /// Publish the new time reference.
    TimeRef(u64),
    /// Pass the command on, once.
    Forward(C),
}

impl<C> CanEffect<C> {
    /// The commands that are passed on.
    pub open spec fn forwarded(self) -> Seq<C> {
        match self {
            CanEffect::Forward(cmd) => seq![cmd],
            _ => seq![],
        }
    }
}

/// A message passes on one command, the one read, if it is a telecommand that could be
/// read. Any other passes on none. Nothing but an answer that could be read touches the time
/// reference.
pub proof fn law_telecommands_are_forwarded_once<C>(
    s: TimesyncState,
    msg: ReadMsg<C>,
    received: u64,
    now: u64,
)
    ensures
        match msg {
            ReadMsg::Telecommand(Some(cmd)) => s.effect(msg, received, now).forwarded() == seq![
                cmd,
            ],
            _ => s.effect(msg, received, now).forwarded() == Seq::<C>::empty(),
        },
        s.effect(msg, received, now).forwarded().len() == 1 ==> action_for(
            msg.kind(),
        ) is ForwardTelecommand,
        msg == ReadMsg::<C>::TimesyncAnswer(None) || action_for(msg.kind()) !is UpdateTimeRef
            ==> s.read(msg, received, now) == s,
{
}

/// A telecommand that could be read.
pub open spec fn is_readable_telecommand<C>(msg: ReadMsg<C>) -> bool {
    msg matches ReadMsg::Telecommand(Some(_))
}

/// Of a run of messages, just the telecommands that could be read are passed on, each once
/// and in the order in which they came in, whatever else comes in between.
pub proof fn law_telecommands_keep_their_order<C>(
    s: TimesyncState,
    run: Seq<(ReadMsg<C>, u64, u64)>,
)
    ensures
        s.forwarded_all(run) == run.filter(
            |m: (ReadMsg<C>, u64, u64)| is_readable_telecommand(m.0),
        ).map_values(|m: (ReadMsg<C>, u64, u64)| m.0->Telecommand_0->0),
    decreases run.len(),
{
    let readable = |m: (ReadMsg<C>, u64, u64)| is_readable_telecommand(m.0);
    let command = |m: (ReadMsg<C>, u64, u64)| m.0->Telecommand_0->0;
    reveal(Seq::filter);
    if run.len() > 0 {
        law_telecommands_keep_their_order(s, run.drop_last());
        let kept = run.drop_last().filter(readable);
        assert(kept.push(run.last()).map_values(command) =~= kept.map_values(command).push(
            command(run.last()),
        ));
    }
    assert(s.forwarded_all(run) =~= run.filter(readable).map_values(command));
}

/// Before the time was requested no answer counts, and one of the worst priority never
/// does after a request.
pub proof fn law_unasked_answers_do_not_count(
    s: TimesyncState,
    answer: TimesyncAnswer,
    request_time: u64,
)
    ensures
        s.req_ans_prio == 0 ==> !s.accepts(answer),
        answer.priority == u8::MAX ==> !s.requested(request_time).accepts(answer),
{
}

/// The first answer to a request of this board counts, unless it is of the worst
/// priority.
pub proof fn law_first_answer_counts(s: TimesyncState, answer: TimesyncAnswer, request_time: u64)
    ensures
        s.requested(request_time).accepts(answer) <==> answer.request_id == TIMESYNC_REQ_ID
            && answer.priority != u8::MAX,
{
}

/// To one request each answer that counts is better than those before, so that none
/// counts twice. Only a new request lets worse ones count again.
pub proof fn law_answers_improve(
    s: TimesyncState,
    first: TimesyncAnswer,
    second: TimesyncAnswer,
    received: u64,
    now: u64,
)
    requires
        s.accepts(first),
        s.answered(first, received, now).accepts(second),
    ensures
        second.priority < first.priority,
        s.answered(first, received, now).req_time == s.req_time,
{
}

/// While no answer is as good as `prio`, none of that priority is kept.
proof fn lemma_priority_stays_above(
    s: TimesyncState,
    run: Seq<(TimesyncAnswer, u64, u64)>,
    prio: u8,
)
    requires
        prio < s.req_ans_prio,
        forall|k: int|
            0 <= k < run.len() && (#[trigger] run[k]).0.request_id == TIMESYNC_REQ_ID ==> prio
                < run[k].0.priority,
    ensures
        prio < s.answered_all(run).req_ans_prio,
        s.answered_all(run).req_time == s.req_time,
    decreases run.len(),
{
    if run.len() > 0 {
        lemma_priority_stays_above(s, run.drop_last(), prio);
    }
}

/// Of a run of answers to one request, the first of the best priority decides: it is at
/// `best`, it counted before the run, no answer is better, and those before it are worse.
pub proof fn law_best_answer_decides(
    s: TimesyncState,
    run: Seq<(TimesyncAnswer, u64, u64)>,
    best: int,
)
    requires
        0 <= best < run.len(),
        s.accepts(run[best].0),
        forall|k: int|
            0 <= k < run.len() && (#[trigger] run[k]).0.request_id == TIMESYNC_REQ_ID
                ==> run[best].0.priority <= run[k].0.priority,
        forall|k: int|
            0 <= k < best && (#[trigger] run[k]).0.request_id == TIMESYNC_REQ_ID
                ==> run[best].0.priority < run[k].0.priority,
    ensures
        s.answered_all(run) == s.answered(run[best].0, run[best].1, run[best].2),
    decreases run.len(),
{
    let before = run.drop_last();
    if best < before.len() {
        assert(before[best] == run[best]);
        law_best_answer_decides(s, before, best);
        assert(run.last() == run[run.len() - 1]);
    } else {
        lemma_priority_stays_above(s, before, run[best].0.priority);
    }
}

/// A run of answers of which none counts changes nothing.
pub proof fn law_run_without_answers(s: TimesyncState, run: Seq<(TimesyncAnswer, u64, u64)>)
    requires
        forall|k: int| 0 <= k < run.len() ==> !s.accepts((#[trigger] run[k]).0),
    ensures
        s.answered_all(run) == s,
    decreases run.len(),
{
    if run.len() > 0 {
        law_run_without_answers(s, run.drop_last());
        assert(!s.accepts(run[run.len() - 1].0));
    }
}

/// What does not count changes nothing.
pub proof fn law_rejected_answers_change_nothing(
    s: TimesyncState,
    answer: TimesyncAnswer,
    received: u64,
    now: u64,
)
    requires
        !s.accepts(answer),
    ensures
        s.answered(answer, received, now) == s,
{
}

/// The local time plus the reference is the time answered plus half the round trip.
pub proof fn law_time_ref(s: TimesyncState, answer: TimesyncAnswer, received: u64, now: u64)
    requires
        s.accepts(answer),
        s.offset_fits(answer, received, now),
    ensures
        now + s.answered(answer, received, now).time_ref == answer.unix_time + (received
            - s.req_time) / 2,
{
}

/// What a request does: it notes its time and lets answers of all but the worst priority
/// count. The time reference stays.
pub proof fn law_request(s: TimesyncState, now: u64)
    ensures
        s.requested(now).req_time == now,
        s.requested(now).req_ans_prio == 255,
        s.requested(now).time_ref == s.time_ref,
{
}

/// What an answer does: it counts just if it is marked 3, as the requests of this board are,
/// and its priority is below that of the best so far. Then its priority is kept, and the local
/// time plus the reference is the time answered plus half the round trip, rounded down.
pub proof fn law_answer(s: TimesyncState, answer: TimesyncAnswer, received: u64, now: u64)
    ensures
        s.accepts(answer) <==> answer.request_id == 3 && answer.priority < s.req_ans_prio,
        ({
            let t = s.answered(answer, received, now);
            &&& t.req_time == s.req_time
            &&& !s.accepts(answer) ==> t.req_ans_prio == s.req_ans_prio && t.time_ref
                == s.time_ref
            &&& s.accepts(answer) ==> t.req_ans_prio == answer.priority
            &&& s.accepts(answer) && s.offset_fits(answer, received, now) ==> 2 * (now
                + t.time_ref - answer.unix_time) <= received - s.req_time < 2 * (now + t.time_ref
                - answer.unix_time) + 2
        }),
{
}

/// An answer can be taken into account just if it came in no earlier than the request went
/// out, the time answered plus half the round trip fits in 64 bits, and it is not before `now`.
pub proof fn law_offset_fits(s: TimesyncState, answer: TimesyncAnswer, received: u64, now: u64)
    ensures
        s.offset_fits(answer, received, now) <==> {
            &&& s.req_time <= received
            &&& answer.unix_time + (received - s.req_time) / 2 <= 0xFFFF_FFFF_FFFF_FFFF
            &&& now <= answer.unix_time + (received - s.req_time) / 2
        },
{
}

/// What follows from a message that was read: a telecommand is passed on as it was read, an
/// answer that counts is taken into account and its time reference is published, and nothing
/// follows from anything else.
pub proof fn law_message_effect<C>(s: TimesyncState, msg: ReadMsg<C>, received: u64, now: u64)
    ensures
        match msg {
            ReadMsg::Telecommand(Some(cmd)) => {
                &&& s.effect(msg, received, now) == CanEffect::Forward(cmd)
                &&& s.read(msg, received, now) == s
            },
            ReadMsg::TimesyncAnswer(Some(answer)) => {
                &&& s.read(msg, received, now) == s.answered(answer, received, now)
                &&& answer.request_id == 3 && answer.priority < s.req_ans_prio ==> s.effect(
                    msg,
                    received,
                    now,
                ) == CanEffect::<C>::TimeRef(s.answered(answer, received, now).time_ref)
                &&& answer.request_id != 3 || answer.priority >= s.req_ans_prio ==> s.effect(
                    msg,
                    received,
                    now,
                ) == CanEffect::<C>::Nothing
            },
            _ => {
                &&& s.effect(msg, received, now) == CanEffect::<C>::Nothing
                &&& s.read(msg, received, now) == s
            },
        },
{
}

/// What becomes of a frame: one without a standard identifier or of an unknown one cannot
/// come in, answers and telecommands are read as such, and all others are ignored.
pub proof fn law_frame_action(id: Option<u16>, kind: Option<MsgKind>)
    ensures
        frame_action(id, kind) is NoStandardId <==> id is None,
        frame_action(id, kind) is UnknownId <==> id is Some && kind is None,
        frame_action(id, kind) is UpdateTimeRef <==> id is Some && kind == Some(
            MsgKind::TimesyncAnswer,
        ),
        frame_action(id, kind) is ForwardTelecommand <==> id is Some && kind == Some(
            MsgKind::Telecommand,
        ),
        frame_action(id, kind) is Ignore <==> id is Some && kind == Some(MsgKind::Other),
{
}

/// Frames have a standard identifier of 11 bits and 0 to 8, 12, 16, 20, 24, 32, 48 or 64
/// bytes. Time requests are marked 3 and go out every 10 s.
pub proof fn law_frame_limits(len: int)
    ensures
        is_fd_len(len) <==> 0 <= len <= 8 || (8 < len <= 24 && len % 4 == 0) || len == 32 || len
            == 48 || len == 64,
        MAX_STANDARD_ID == 2047,
        TIMESYNC_REQ_ID == 3,
        REQ_INTERVAL_S == 10,
{
}

} // verus!
