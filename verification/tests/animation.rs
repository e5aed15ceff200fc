use bright::animation::{AnimationIter, Step};

/// Drives the generator with a linear easing: the identity mapping
/// between perceptual and actual brightness.
fn drive_linear(animation: &mut AnimationIter) -> Vec<(u16, bool)> {
    let mut frames = Vec::new();
    loop {
        match animation.next_step() {
            Step::Finished => return frames,
            Step::Last(v) => frames.push((v, true)),
            Step::Interpolate(req) => {
                let current_actual = req.current as f64 / req.max as f64;
                let desired_actual = req.desired as f64 / req.max as f64;
                let step = (desired_actual - current_actual) / req.remaining as f64;
                let new_actual = current_actual + step;
                let value = (new_actual * req.max as f64).round() as u16;
                frames.push(animation.apply_frame(value));
            }
        }
    }
}

#[test]
fn test_animation_iter_linear() {
    let mut animation = AnimationIter::new((2, 10), 10, 3);
    assert_eq!(animation.len(), 3);
    let frames = drive_linear(&mut animation);
    assert_eq!(frames, vec![(5, false), (8, false), (10, true)]);
    assert!(matches!(animation.next_step(), Step::Finished));
}

#[test]
fn animation_emits_exactly_frame_count() {
    // The exact-size law on concrete values: whatever the easing
    // computes, a generator of n frames emits n values and ends on the
    // desired one.
    for frames in 1..7usize {
        let mut animation = AnimationIter::new((3, 90), 100, frames);
        let emitted = drive_linear(&mut animation);
        assert_eq!(emitted.len(), frames);
        assert_eq!(*emitted.last().unwrap(), (90, true));
    }
}

#[test]
fn animation_run_with_answers() {
    let mut animation = AnimationIter::new((2, 10), 10, 3);
    let frames = animation.run_with_answers(&vec![5, 8]);
    assert_eq!(frames, vec![(5, false), (8, false), (10, true)]);
    assert_eq!(animation.len(), 0);

    // The shape does not depend on the values handed in.
    let mut animation = AnimationIter::new((2, 10), 10, 3);
    let frames = animation.run_with_answers(&vec![1000, 0]);
    assert_eq!(frames, vec![(1000, false), (0, false), (10, true)]);
}

#[test]
fn animation_single_frame_jumps_to_desired() {
    let mut animation = AnimationIter::new((2, 10), 10, 1);
    let frames = drive_linear(&mut animation);
    assert_eq!(frames, vec![(10, true)]);
}
