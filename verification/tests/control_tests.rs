use simple_eq::control::{channel_count, EqControl, SampleAction, DEFAULT_CHANNELS};

fn bits(x: f32) -> u32 {
    x.to_bits()
}

#[test]
fn channel_count_follows_layout() {
    assert_eq!(channel_count(Some(1)), 1);
    assert_eq!(channel_count(Some(2)), 2);
    assert_eq!(channel_count(Some(8)), 8);
    assert_eq!(channel_count(None), 2);
    assert_eq!(DEFAULT_CHANNELS, 2);
}

#[test]
fn default_is_stereo_and_recomputes_first_sample() {
    let mut c = EqControl::default();
    assert_eq!(c.num_channels(), 2);
    let a = c.next_sample(bits(0.0), bits(0.0), 2);
    assert_eq!(
        a,
        SampleAction { update_lows: true, update_highs: true, channels: 2 }
    );
}

#[test]
fn initialize_sets_layout_and_accepts() {
    let mut c = EqControl::default();
    assert!(c.initialize(Some(1)));
    assert_eq!(c.num_channels(), 1);
    assert!(c.initialize(None));
    assert_eq!(c.num_channels(), 2);
    assert!(c.initialize(Some(6)));
    assert_eq!(c.num_channels(), 6);
}

#[test]
fn steady_gain_is_computed_once() {
    let mut c = EqControl::default();
    let first = c.next_sample(bits(6.0), bits(-3.0), 2);
    assert!(first.update_lows && first.update_highs);
    for _ in 0..100 {
        let a = c.next_sample(bits(6.0), bits(-3.0), 2);
        assert_eq!(
            a,
            SampleAction { update_lows: false, update_highs: false, channels: 2 }
        );
    }
}

#[test]
fn only_the_moving_band_is_recomputed() {
    let mut c = EqControl::default();
    c.next_sample(bits(0.0), bits(0.0), 2);
    let a = c.next_sample(bits(0.1), bits(0.0), 2);
    assert!(a.update_lows);
    assert!(!a.update_highs);
    let b = c.next_sample(bits(0.1), bits(-0.2), 2);
    assert!(!b.update_lows);
    assert!(b.update_highs);
}

#[test]
fn sign_of_zero_is_no_change() {
    let mut c = EqControl::default();
    c.next_sample(bits(0.0), bits(-0.0), 2);
    let a = c.next_sample(bits(-0.0), bits(0.0), 2);
    assert!(!a.update_lows);
    assert!(!a.update_highs);
}

#[test]
fn nan_gain_recomputes_every_sample() {
    let mut c = EqControl::default();
    for _ in 0..3 {
        let a = c.next_sample(bits(f32::NAN), bits(1.0), 2);
        assert!(a.update_lows);
    }
}

#[test]
fn reset_forces_recomputation() {
    let mut c = EqControl::default();
    c.next_sample(bits(-18.0), bits(18.0), 2);
    assert!(!c.next_sample(bits(-18.0), bits(18.0), 2).update_lows);
    c.reset();
    let a = c.next_sample(bits(-18.0), bits(18.0), 2);
    assert!(a.update_lows && a.update_highs);
    assert_eq!(c.num_channels(), 2);
}

#[test]
fn initialize_forces_recomputation() {
    let mut c = EqControl::default();
    c.next_sample(bits(3.0), bits(3.0), 2);
    c.initialize(Some(1));
    let a = c.next_sample(bits(3.0), bits(3.0), 1);
    assert!(a.update_lows && a.update_highs);
}

#[test]
fn gain_equal_to_sentinel_is_not_recomputed_after_reset() {
    let mut c = EqControl::default();
    let a = c.next_sample(bits(f32::MAX), bits(1.0), 2);
    assert!(!a.update_lows);
    assert!(a.update_highs);
}

#[test]
fn channels_limited_by_filters_and_frame() {
    let mut c = EqControl::default();
    c.initialize(Some(1));
    assert_eq!(c.next_sample(0, 0, 2).channels, 1);
    c.initialize(Some(2));
    assert_eq!(c.next_sample(0, 0, 1).channels, 1);
    assert_eq!(c.next_sample(0, 0, 2).channels, 2);
    assert_eq!(c.next_sample(0, 0, 0).channels, 0);
    c.initialize(None);
    assert_eq!(c.next_sample(0, 0, 5).channels, 2);
}

#[test]
fn no_update_means_last_recomputed_gain_still_matches() {
    let mut c = EqControl::default();
    let gains = [0.0f32, 0.0, 1.5, 1.5, -0.0, 2.0, 2.0, 2.0];
    let mut last_recomputed: Option<f32> = None;
    for (n, &g) in gains.iter().enumerate() {
        if n == 4 {
            c.reset();
            last_recomputed = None;
        }
        let a = c.next_sample(bits(g), bits(g), 2);
        if a.update_lows {
            last_recomputed = Some(g);
        } else {
            assert_eq!(last_recomputed, Some(g));
        }
    }
    assert_eq!(last_recomputed, Some(2.0));
}
