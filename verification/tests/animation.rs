use silver_animation::{
    AlwaysFails, AnimationShape, AnimationTimer, BasicAnimation, Circle, ConstantFrames,
    ContainedAnimation, DrawRecord, EditableState, LinearConfig, ManualTicks, Rectangle, Resetable,
    ScriptedTicks, SimpleLinearConfig, Vector,
};

fn rect(x: i32, y: i32, w: i32, h: i32) -> Rectangle {
    Rectangle {
        pos: Vector { x, y },
        size: Vector { x: w, y: h },
    }
}

#[test]
fn one_tick_per_poll_cycles_through_frames() {
    let mut timer: AnimationTimer<(), ConstantFrames, ScriptedTicks> = AnimationTimer::new(
        ConstantFrames { count: 4 },
        ScriptedTicks::new(vec![1, 1, 1, 1]),
    );
    assert_eq!(timer.get_current_frame(&()), 1);
    assert_eq!(timer.get_current_frame(&()), 2);
    assert_eq!(timer.get_current_frame(&()), 3);
    assert_eq!(timer.get_current_frame(&()), 0);
}

#[test]
fn large_single_poll_wraps_modulo_frame_count() {
    let mut timer: AnimationTimer<(), ConstantFrames, ScriptedTicks> = AnimationTimer::new(
        ConstantFrames { count: 4 },
        ScriptedTicks::new(vec![1, 10]),
    );
    assert_eq!(timer.get_current_frame(&()), 1);
    assert_eq!(timer.get_current_frame(&()), 3);
}

#[test]
fn overflowing_tick_total_gives_mathematical_index() {
    let mut timer: AnimationTimer<(), ConstantFrames, ScriptedTicks> = AnimationTimer::new(
        ConstantFrames { count: 4 },
        ScriptedTicks::new(vec![3, usize::MAX]),
    );
    assert_eq!(timer.get_current_frame(&()), 3);
    // 3 + usize::MAX overflows; usize::MAX % 4 == 3, so the index must be
    // (3 + 3) % 4 == 2, with no panic.
    assert_eq!(timer.get_current_frame(&()), 2);
}

#[test]
fn index_always_below_frame_count() {
    let mut timer: AnimationTimer<(), ConstantFrames, ScriptedTicks> = AnimationTimer::new(
        ConstantFrames { count: 5 },
        ScriptedTicks::new(vec![0, 7, 123, usize::MAX, 4, 5, 99999]),
    );
    for _ in 0..7 {
        assert!(timer.get_current_frame(&()) < 5);
    }
}

#[test]
fn frame_count_one_pins_index_to_zero() {
    let mut timer: AnimationTimer<(), ConstantFrames, ScriptedTicks> = AnimationTimer::new(
        ConstantFrames { count: 1 },
        ScriptedTicks::new(vec![9, usize::MAX, 2]),
    );
    for _ in 0..3 {
        assert_eq!(timer.get_current_frame(&()), 0);
    }
}

#[test]
fn reset_goes_back_to_frame_zero_and_drops_accumulation() {
    let mut timer: AnimationTimer<(), ConstantFrames, ScriptedTicks> = AnimationTimer::new(
        ConstantFrames { count: 4 },
        ScriptedTicks::new(vec![2, 7]),
    );
    assert_eq!(timer.get_current_frame(&()), 2);
    timer.reset();
    assert_eq!(timer.at_frame, 0);
    // The 7-tick entry accumulated before the reset was dropped with it: the
    // next advance observes zero elapsed ticks and stays on frame 0.
    assert_eq!(timer.get_current_frame(&()), 0);
}

#[test]
fn reset_is_idempotent() {
    let mut timer: AnimationTimer<(), ConstantFrames, ScriptedTicks> = AnimationTimer::new(
        ConstantFrames { count: 4 },
        ScriptedTicks::new(vec![3]),
    );
    assert_eq!(timer.get_current_frame(&()), 3);
    timer.reset();
    timer.reset();
    assert_eq!(timer.at_frame, 0);
    assert_eq!(timer.get_current_frame(&()), 0);
}

#[test]
fn identical_clocks_produce_identical_sequences() {
    let script = vec![1, 5, 0, usize::MAX, 13];
    let mut a: AnimationTimer<(), ConstantFrames, ScriptedTicks> = AnimationTimer::new(
        ConstantFrames { count: 7 },
        ScriptedTicks::new(script.clone()),
    );
    let mut b: AnimationTimer<(), ConstantFrames, ScriptedTicks> = AnimationTimer::new(
        ConstantFrames { count: 7 },
        ScriptedTicks::new(script),
    );
    for _ in 0..5 {
        assert_eq!(a.get_current_frame(&()), b.get_current_frame(&()));
    }
}

#[test]
fn sequence_animation_draws_resources_in_order() {
    let config = SimpleLinearConfig {
        images: vec![10u32, 20, 30],
        timing: ScriptedTicks::new(vec![2, 1]),
    };
    let mut animation = config.into_animation();
    let mut record: DrawRecord<u32> = DrawRecord::new();
    let location = rect(1, 2, 16, 16);

    // Frame index 2 draws the third resource.
    let first: Result<(), ()> = animation.draw(&mut record, location);
    assert_eq!(first, Ok(()));
    assert_eq!(animation.clock.at_frame, 2);
    assert_eq!(record.entries, vec![(30, location)]);

    // The next frame after 2 wraps to 0 and draws the first resource.
    let second: Result<(), ()> = animation.draw(&mut record, location);
    assert_eq!(second, Ok(()));
    assert_eq!(animation.clock.at_frame, 0);
    assert_eq!(record.entries, vec![(30, location), (10, location)]);
}

#[test]
fn linear_reset_restarts_playback() {
    let config = SimpleLinearConfig {
        images: vec![1u32, 2, 3, 4],
        timing: ScriptedTicks::new(vec![2, 1]),
    };
    let mut animation = config.into_animation();
    let mut record: DrawRecord<u32> = DrawRecord::new();
    let location = rect(0, 0, 4, 4);
    let _: Result<(), ()> = animation.draw(&mut record, location);
    assert_eq!(animation.clock.at_frame, 2);
    animation.reset();
    assert_eq!(animation.clock.at_frame, 0);
    // No accumulation survives the reset: the next draw stays on frame 0.
    let _: Result<(), ()> = animation.draw(&mut record, location);
    assert_eq!(animation.clock.at_frame, 0);
    assert_eq!(record.entries.last(), Some(&(1, location)));
}

#[test]
fn shrinking_frame_count_bounds_the_next_index() {
    let config = SimpleLinearConfig {
        images: vec![10u32, 20, 30, 40],
        timing: ScriptedTicks::new(vec![1, 1]),
    };
    let mut animation = config.into_animation();
    let mut record: DrawRecord<u32> = DrawRecord::new();
    let location = rect(0, 0, 4, 4);
    let _: Result<(), ()> = animation.draw(&mut record, location);
    assert_eq!(animation.clock.at_frame, 1);
    // The frame count is re-read from the state on every advance: after the
    // state shrinks to two frames, the next index respects the new bound.
    animation.set_state(vec![10u32, 20]);
    let _: Result<(), ()> = animation.draw(&mut record, location);
    assert_eq!(animation.clock.at_frame, 0);
    assert_eq!(record.entries, vec![(20, location), (10, location)]);
}

#[test]
fn container_and_unpacked_core_draw_identically() {
    let location = rect(3, 4, 32, 32);
    let make = || {
        SimpleLinearConfig {
            images: vec![7u32, 8, 9],
            timing: ScriptedTicks::new(vec![1, 1, 1, 1]),
        }
        .into_animation()
    };

    // Drive one animation through a container.
    let mut contained = make().contain(location);
    let mut contained_record: DrawRecord<u32> = DrawRecord::new();
    for _ in 0..4 {
        let r: Result<(), ()> = contained.draw(&mut contained_record);
        assert_eq!(r, Ok(()));
    }

    // Unpack an identical container and drive the returned core directly
    // with the shape it held.
    let (mut core, shape) = make().contain(location).unpack();
    let mut core_record: DrawRecord<u32> = DrawRecord::new();
    for _ in 0..4 {
        let r: Result<(), ()> = core.draw(&mut core_record, shape.get_both());
        assert_eq!(r, Ok(()));
    }

    assert_eq!(contained_record.entries, core_record.entries);
}

#[test]
fn containing_through_the_trait_matches_the_inherent_path() {
    let location = rect(2, 2, 6, 6);
    let make = || {
        SimpleLinearConfig {
            images: vec![4u32, 5],
            timing: ScriptedTicks::new(vec![1]),
        }
        .into_animation()
    };
    let via_trait =
        BasicAnimation::<Vector, Rectangle, DrawRecord<u32>, ()>::contain(make(), location);
    let via_inherent = make().contain(location);
    let (trait_core, trait_shape) = via_trait.unpack();
    let (inherent_core, inherent_shape) = via_inherent.unpack();
    assert_eq!(trait_shape, inherent_shape);
    assert_eq!(trait_core.state, inherent_core.state);
    assert_eq!(trait_core.clock.at_frame, inherent_core.clock.at_frame);
}

#[test]
fn unpack_returns_the_animation_and_the_shape() {
    let location = rect(5, 6, 10, 12);
    let animation = SimpleLinearConfig {
        images: vec![1u32, 2],
        timing: ScriptedTicks::new(vec![1]),
    }
    .into_animation();
    let container = animation.contain(location);
    let (core, shape) = container.unpack();
    assert_eq!(shape, location);
    assert_eq!(core.state, vec![1u32, 2]);
    assert_eq!(core.clock.at_frame, 0);
}

#[test]
fn container_shape_accessors_leave_playback_alone() {
    let mut container = SimpleLinearConfig {
        images: vec![5u32, 6],
        timing: ScriptedTicks::new(vec![1]),
    }
    .into_animation()
    .contain(rect(0, 0, 8, 8));

    container.set_location(Vector { x: 40, y: 50 });
    assert_eq!(container.get_position(), Vector { x: 40, y: 50 });
    container.set_size(Vector { x: 2, y: 3 });
    assert_eq!(container.get_size(), Vector { x: 2, y: 3 });
    assert_eq!(container.get_draw_pos(), rect(40, 50, 2, 3));
    assert_eq!(container.animation.clock.at_frame, 0);

    // The next draw uses the updated shape.
    let mut record: DrawRecord<u32> = DrawRecord::new();
    let r: Result<(), ()> = container.draw(&mut record);
    assert_eq!(r, Ok(()));
    assert_eq!(record.entries, vec![(6, rect(40, 50, 2, 3))]);
}

#[test]
fn container_forwards_reset_and_state_edits() {
    let mut container = SimpleLinearConfig {
        images: vec![1u32, 2, 3],
        timing: ScriptedTicks::new(vec![2]),
    }
    .into_animation()
    .contain(rect(0, 0, 8, 8));

    let mut record: DrawRecord<u32> = DrawRecord::new();
    let r: Result<(), ()> = container.draw(&mut record);
    assert_eq!(r, Ok(()));
    assert_eq!(container.animation.clock.at_frame, 2);

    container.reset();
    assert_eq!(container.animation.clock.at_frame, 0);

    container.set_state(vec![9u32]);
    assert_eq!(container.get_state(), &vec![9u32]);
    assert_eq!(container.animation.state, vec![9u32]);
}

#[test]
fn rectangle_adapter_reads_and_writes_both_fields() {
    let mut r = rect(1, 2, 3, 4);
    assert_eq!(r.get_location(), Vector { x: 1, y: 2 });
    assert_eq!(r.get_size(), Vector { x: 3, y: 4 });
    r.set_location(Vector { x: 9, y: 8 });
    r.set_size(Vector { x: 7, y: 6 });
    assert_eq!(r.get_both(), rect(9, 8, 7, 6));
}

#[test]
fn circle_adapter_reads_and_writes_both_fields() {
    let mut c = Circle {
        pos: Vector { x: 1, y: 2 },
        radius: 5,
    };
    assert_eq!(c.get_location(), Vector { x: 1, y: 2 });
    assert_eq!(c.get_size(), 5);
    c.set_location(Vector { x: 3, y: 4 });
    c.set_size(10);
    let copy = c.get_both();
    assert_eq!(copy.pos, Vector { x: 3, y: 4 });
    assert_eq!(copy.radius, 10);
}

#[test]
fn strategy_errors_propagate_verbatim() {
    let mut animation = LinearConfig {
        begin_state: 0u8,
        timing: ScriptedTicks::new(vec![3]),
        draw: AlwaysFails,
        max_frames: ConstantFrames { count: 2 },
    }
    .into_animation();
    let mut record: DrawRecord<u8> = DrawRecord::new();
    let r: Result<(), ()> = animation.draw(&mut record, rect(0, 0, 1, 1));
    assert_eq!(r, Err(()));
    // The clock advanced before the strategy ran; a failed draw does not
    // roll the playback position back.
    assert_eq!(animation.clock.at_frame, 1);
    assert!(record.entries.is_empty());
}

#[test]
fn manual_ticks_feed_an_external_timer_through() {
    let mut timer: AnimationTimer<(), ConstantFrames, ManualTicks> =
        AnimationTimer::new(ConstantFrames { count: 4 }, ManualTicks::new());
    // Nothing supplied yet: the clock stays put.
    assert_eq!(timer.get_current_frame(&()), 0);
    timer.timer.supply(3);
    assert_eq!(timer.get_current_frame(&()), 3);
    // A poll consumes what was supplied.
    assert_eq!(timer.get_current_frame(&()), 3);
    timer.timer.supply(2);
    assert_eq!(timer.get_current_frame(&()), 1);
}

#[test]
fn exhausted_script_polls_zero() {
    let mut timer: AnimationTimer<(), ConstantFrames, ScriptedTicks> = AnimationTimer::new(
        ConstantFrames { count: 3 },
        ScriptedTicks::new(vec![1]),
    );
    assert_eq!(timer.get_current_frame(&()), 1);
    // The script is exhausted: repolling without new elapsed time yields 0,
    // so the index stays where it was.
    assert_eq!(timer.get_current_frame(&()), 1);
    assert_eq!(timer.get_current_frame(&()), 1);
}
