use yew_transition_group::Timeout;

#[test]
fn uniform_resolves_every_edge() {
    let t = Timeout::new(300);
    assert_eq!(t.exit(), 300);
    assert_eq!(t.enter(), 300);
    assert_eq!(t.appear(), 300);
}

#[test]
fn uniform_overrides_every_other_value() {
    let t = Timeout::new(300).with_appear(10).with_enter(20).with_exit(30);
    assert_eq!(t.exit(), 300);
    assert_eq!(t.enter(), 300);
    assert_eq!(t.appear(), 300);
}

#[test]
fn nothing_given_resolves_to_zero() {
    let t = Timeout::default();
    assert_eq!(t.exit(), 0);
    assert_eq!(t.enter(), 0);
    assert_eq!(t.appear(), 0);
}

#[test]
fn appear_falls_back_to_enter() {
    let t = Timeout::default().with_enter(100).with_exit(200);
    assert_eq!(t.exit(), 200);
    assert_eq!(t.enter(), 100);
    assert_eq!(t.appear(), 100);
}

#[test]
fn explicit_appear_wins_over_enter() {
    let t = Timeout::default().with_enter(100).with_appear(50);
    assert_eq!(t.appear(), 50);
    assert_eq!(t.enter(), 100);
    assert_eq!(t.exit(), 0);
}

#[test]
fn builders_set_one_edge_each() {
    assert_eq!(Timeout::default().with_exit(7).exit(), 7);
    assert_eq!(Timeout::default().with_exit(7).enter(), 0);
    assert_eq!(Timeout::default().with_appear(9).appear(), 9);
    assert_eq!(Timeout::default().with_appear(9).enter(), 0);
}
