use embassy_stm32::can::frame::FdFrame;
use pyro_fw::io_threads::{
    gen_tm_frame, handle_can_msg, handle_received, message_id, CanAction, CanEffect, MsgKind, ReadMsg,
    SenderEvent, TimeSync, TimesyncAnswer,
};

fn answer(priority: u8, unix_time: u64) -> TimesyncAnswer {
    TimesyncAnswer { request_id: 3, priority, unix_time }
}

fn is_plain(frame: &FdFrame) -> bool {
    let header = frame.header();
    !header.rtr() && !header.fdcan() && !header.bit_rate_switching()
}

#[test]
fn telemetry_frame_holds_id_and_bytes() {
    let frame = gen_tm_frame(0x123, &[1, 2, 3]);
    assert_eq!(frame.data(), &[1, 2, 3]);
    assert!(matches!(frame.id(), embedded_can::Id::Standard(id) if id.as_raw() == 0x123));
    assert_eq!(message_id(&frame), Some(0x123));
    assert!(is_plain(&frame));
}

#[test]
fn telemetry_frame_limits() {
    for len in [0, 1, 2, 3, 4, 5, 6, 7, 8, 12, 16, 20, 24, 32, 48, 64] {
        let bytes = vec![0xA5; len];
        let frame = gen_tm_frame(0x7FF, &bytes);
        assert_eq!(frame.data(), &bytes[..]);
        assert_eq!(message_id(&frame), Some(0x7FF));
        assert!(is_plain(&frame));
    }
    assert!(FdFrame::new_standard(0x800, &[]).is_err());
    assert!(FdFrame::new_standard(0x7FF, &[0; 9]).is_err());
    assert!(FdFrame::new_standard(0x7FF, &[0; 65]).is_err());
}

#[test]
fn extended_frames_have_no_message_id() {
    let frame = FdFrame::new_extended(0x123, &[1]).unwrap();
    assert_eq!(message_id(&frame), None);
}

#[test]
fn timesync_request_frame() {
    let mut sync = TimeSync::new();
    let frame = sync.gen_timesync_frame(0x10, 1_000);
    assert_eq!(frame.data(), &[3]);
    assert!(is_plain(&frame));
    assert_eq!(message_id(&frame), Some(0x10));
    assert_eq!(sync.update_time_ref(&answer(254, 5_000), 1_200, 1_250), Some(3_850));
}

#[test]
fn next_frame_by_event() {
    let mut sync = TimeSync::new();
    let frame = sync.next_frame(0x10, SenderEvent::Telemetry { id: 0x20, fd_bytes: &[7, 8] });
    assert_eq!((message_id(&frame), frame.data()), (Some(0x20), &[7u8, 8][..]));
    assert_eq!(sync.update_time_ref(&answer(0, 5_000), 1_200, 1_250), None);
    let frame = sync.next_frame(0x10, SenderEvent::TimesyncDue { now: 1_000 });
    assert_eq!((message_id(&frame), frame.data()), (Some(0x10), &[3u8][..]));
    assert_eq!(sync.update_time_ref(&answer(0, 5_000), 1_200, 1_250), Some(3_850));
}

#[test]
fn unasked_answers_do_not_count() {
    let mut sync = TimeSync::new();
    assert_eq!(sync.update_time_ref(&answer(0, 5_000), 100, 100), None);
    assert_eq!(sync.time_ref(), 0);
}

#[test]
fn answers_to_others_do_not_count() {
    let mut sync = TimeSync::new();
    sync.gen_timesync_frame(0x10, 1_000);
    let other = TimesyncAnswer { request_id: 4, priority: 0, unix_time: 5_000 };
    assert_eq!(sync.update_time_ref(&other, 1_200, 1_250), None);
    assert_eq!(sync.update_time_ref(&answer(255, 5_000), 1_200, 1_250), None);
    assert_eq!(sync.time_ref(), 0);
}

#[test]
fn time_reference_is_offset_by_half_the_round_trip() {
    let mut sync = TimeSync::new();
    sync.gen_timesync_frame(0x10, 1_000);
    assert_eq!(sync.update_time_ref(&answer(9, 1_000_000), 1_301, 1_310), Some(998_840));
    assert_eq!(sync.time_ref(), 998_840);
    assert_eq!(1_310 + sync.time_ref(), 1_000_000 + 150);
}

#[test]
fn only_better_answers_count() {
    let mut sync = TimeSync::new();
    sync.gen_timesync_frame(0x10, 1_000);
    assert_eq!(sync.update_time_ref(&answer(9, 10_000), 1_000, 1_000), Some(9_000));
    assert_eq!(sync.update_time_ref(&answer(9, 20_000), 1_000, 1_000), None);
    assert_eq!(sync.update_time_ref(&answer(10, 20_000), 1_000, 1_000), None);
    assert_eq!(sync.time_ref(), 9_000);
    assert_eq!(sync.update_time_ref(&answer(8, 20_000), 1_000, 1_000), Some(19_000));
    sync.gen_timesync_frame(0x10, 2_000);
    assert_eq!(sync.time_ref(), 19_000);
    assert_eq!(sync.update_time_ref(&answer(200, 30_000), 2_000, 2_000), Some(28_000));
}

#[test]
fn offsets_that_do_not_fit_are_told() {
    let mut sync = TimeSync::new();
    assert!(sync.can_update(&answer(0, 0), 0, u64::MAX));
    sync.gen_timesync_frame(0x10, 1_000);
    assert!(sync.can_update(&answer(0, 1_000), 1_000, 1_000));
    assert!(!sync.can_update(&answer(0, 1_000), 999, 0));
    assert!(!sync.can_update(&answer(0, 1_000), 1_000, 1_001));
    assert!(!sync.can_update(&answer(0, u64::MAX), 1_002, 1_000));
    assert!(sync.can_update(&answer(0, u64::MAX), 1_001, 1_000));
    assert!(sync.can_update(&answer(255, 0), 0, u64::MAX));
}

#[test]
fn messages_are_told_apart() {
    let frame = gen_tm_frame(0x123, &[1]);
    let action = |kind: MsgKind| handle_can_msg(&frame, Some(kind));
    assert_eq!(action(MsgKind::TimesyncAnswer), CanAction::UpdateTimeRef);
    assert_eq!(action(MsgKind::Telecommand), CanAction::ForwardTelecommand);
    assert_eq!(action(MsgKind::Other), CanAction::Ignore);
}

#[test]
fn unexpected_frames_are_told() {
    let standard = gen_tm_frame(0x123, &[1]);
    let extended = FdFrame::new_extended(0x123, &[1]).unwrap();
    assert_eq!(handle_can_msg(&standard, None), CanAction::UnknownId);
    assert_eq!(handle_can_msg(&extended, None), CanAction::NoStandardId);
    assert_eq!(handle_can_msg(&extended, Some(MsgKind::Other)), CanAction::NoStandardId);
}

#[test]
fn bus_errors_are_passed_over() {
    let frame = gen_tm_frame(0x123, &[1]);
    assert_eq!(handle_received(None, None), CanAction::Ignore);
    assert_eq!(handle_received(None, Some(MsgKind::Telecommand)), CanAction::Ignore);
    assert_eq!(handle_received(Some(&frame), None), CanAction::UnknownId);
    assert_eq!(
        handle_received(Some(&frame), Some(MsgKind::Telecommand)),
        CanAction::ForwardTelecommand
    );
}

#[test]
fn telecommands_keep_their_order() {
    let mut sync = TimeSync::new();
    sync.gen_timesync_frame(0x10, 1_000);
    let run = [
        ReadMsg::Telecommand(Some(1)),
        ReadMsg::TimesyncAnswer(Some(answer(9, 5_000))),
        ReadMsg::Telecommand(None),
        ReadMsg::Telecommand(Some(2)),
        ReadMsg::Other,
        ReadMsg::Telecommand(Some(1)),
    ];
    let mut forwarded = Vec::new();
    for msg in run {
        if let CanEffect::Forward(cmd) = sync.finish_can_msg(msg, 1_200, 1_250) {
            forwarded.push(cmd);
        }
    }
    assert_eq!(forwarded, [1, 2, 1]);
    assert_eq!(sync.time_ref(), 3_850);
}

#[test]
fn telecommands_that_read_are_forwarded_once() {
    let mut sync = TimeSync::new();
    sync.gen_timesync_frame(0x10, 1_000);
    let read = ReadMsg::Telecommand(Some("arm"));
    assert_eq!(sync.finish_can_msg(read, 1_200, 1_250), CanEffect::Forward("arm"));
    let unreadable: ReadMsg<&str> = ReadMsg::Telecommand(None);
    assert_eq!(sync.finish_can_msg(unreadable, 1_200, 1_250), CanEffect::Nothing);
    let other: ReadMsg<&str> = ReadMsg::Other;
    assert_eq!(sync.finish_can_msg(other, 1_200, 1_250), CanEffect::Nothing);
    assert_eq!(sync.time_ref(), 0);
}

#[test]
fn answers_that_read_update_the_time_reference() {
    let mut sync = TimeSync::new();
    sync.gen_timesync_frame(0x10, 1_000);
    let unreadable: ReadMsg<()> = ReadMsg::TimesyncAnswer(None);
    assert_eq!(sync.finish_can_msg(unreadable, 1_200, 1_250), CanEffect::Nothing);
    assert_eq!(sync.time_ref(), 0);
    let read: ReadMsg<()> = ReadMsg::TimesyncAnswer(Some(answer(254, 5_000)));
    assert_eq!(sync.finish_can_msg(read, 1_200, 1_250), CanEffect::TimeRef(3_850));
    assert_eq!(sync.finish_can_msg(read, 1_200, 1_250), CanEffect::Nothing);
    assert_eq!(sync.time_ref(), 3_850);
}

#[test]
fn first_of_the_best_answers_decides() {
    let mut sync = TimeSync::new();
    sync.gen_timesync_frame(0x10, 1_000);
    let run = [(200, 10_000), (7, 20_000), (9, 30_000), (7, 40_000), (255, 50_000)];
    for (priority, unix_time) in run {
        sync.update_time_ref(&answer(priority, unix_time), 1_000, 1_000);
    }
    assert_eq!(sync.time_ref(), 19_000);
}
