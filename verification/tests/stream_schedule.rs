use goobler::audio::stream::{FrameSchedule, SourceStep, CONFIG_UPDATE_INTERVAL};

#[test]
fn interleaves_left_then_right() {
    let mut sched: FrameSchedule<i32> = FrameSchedule::new();
    let mut out = Vec::new();
    for frame in 0..3 {
        match sched.next_step() {
            SourceStep::Generate { .. } => out.push(sched.deliver_frame(10 * frame, 10 * frame + 1)),
            SourceStep::Emit(_) => panic!("nothing waits before a frame is made"),
        }
        match sched.next_step() {
            SourceStep::Emit(x) => out.push(x),
            SourceStep::Generate { .. } => panic!("the right sample must come next"),
        }
    }
    assert_eq!(out, vec![0, 1, 10, 11, 20, 21]);
}

#[test]
fn refreshes_settings_every_interval_frames() {
    assert_eq!(CONFIG_UPDATE_INTERVAL, 256);
    let mut sched: FrameSchedule<u8> = FrameSchedule::new();
    let mut refreshed_at = Vec::new();
    for frame in 1..=600u32 {
        match sched.next_step() {
            SourceStep::Generate { refresh_config } => {
                if refresh_config {
                    refreshed_at.push(frame);
                }
                let _ = sched.deliver_frame(0, 0);
            }
            SourceStep::Emit(_) => panic!("unexpected emit"),
        }
        assert!(matches!(sched.next_step(), SourceStep::Emit(0)));
    }
    assert_eq!(refreshed_at, vec![256, 512]);
}
