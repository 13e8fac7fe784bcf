use ray_tracing_001::trace::{next_bounce, Bounce, MAX_DEPTH};

#[test]
fn miss_sees_background() {
    assert_eq!(next_bounce(false, false, 0, MAX_DEPTH), Bounce::Background);
    assert_eq!(next_bounce(false, true, MAX_DEPTH, MAX_DEPTH), Bounce::Background);
}

#[test]
fn scattered_hit_continues_below_cap() {
    assert_eq!(next_bounce(true, true, 0, MAX_DEPTH), Bounce::Continue);
    assert_eq!(next_bounce(true, true, MAX_DEPTH - 1, MAX_DEPTH), Bounce::Continue);
}

#[test]
fn depth_cap_absorbs() {
    assert_eq!(next_bounce(true, true, MAX_DEPTH, MAX_DEPTH), Bounce::Absorbed);
    assert_eq!(next_bounce(true, true, 0, 0), Bounce::Absorbed);
}

#[test]
fn unscattered_hit_absorbs() {
    assert_eq!(next_bounce(true, false, 0, MAX_DEPTH), Bounce::Absorbed);
}

#[test]
fn path_stops_at_cap() {
    let mut depth = 0usize;
    let mut queries = 0usize;
    loop {
        queries += 1;
        match next_bounce(true, true, depth, MAX_DEPTH) {
            Bounce::Continue => depth += 1,
            _ => break,
        }
    }
    assert_eq!(queries, MAX_DEPTH + 1);
}
