use datafixerupper::lifecycle::Lifecycle;

#[test]
fn add_lifecycles() {
    assert_eq!(Lifecycle::Stable.add(Lifecycle::Stable), Lifecycle::Stable);

    assert_eq!(
        Lifecycle::Experimental.add(Lifecycle::Deprecated(10)),
        Lifecycle::Experimental
    );

    assert_eq!(
        Lifecycle::Deprecated(10).add(Lifecycle::Deprecated(15)),
        Lifecycle::Deprecated(10)
    );
}

#[test]
fn add_lifecycles_commutes() {
    let values = [
        Lifecycle::Stable,
        Lifecycle::Experimental,
        Lifecycle::Deprecated(3),
        Lifecycle::Deprecated(7),
    ];
    for a in values {
        for b in values {
            assert_eq!(a.add(b), b.add(a));
        }
    }
}
