use ibc::errors::ClientError;
use ibc::height::Height;

/// Heights with equal revision compare by the height component alone.
#[test]
fn height_order_same_revision() {
    let h1 = Height::new(1, 10).unwrap();
    let h2 = Height::new(1, 11).unwrap();
    assert!(h1 < h2);
    assert!(!(h2 < h1));
    assert!(h2 > h1);
    assert!(h1 != h2);
}

/// Cross-revision comparisons order by revision first, whatever the height
/// components say.
#[test]
fn height_order_cross_revision() {
    let h1 = Height::new(1, 1000).unwrap();
    let h2 = Height::new(2, 1).unwrap();
    assert!(h1 < h2);
    assert!(h2 > h1);
}

#[test]
fn height_order_equal() {
    let h1 = Height::new(3, 5).unwrap();
    let h2 = Height::new(3, 5).unwrap();
    assert_eq!(h1, h2);
    assert!(!(h1 < h2));
    assert!(!(h1 > h2));
}

/// A zero height component is rejected at construction.
#[test]
fn height_new_rejects_zero() {
    assert!(matches!(Height::new(1, 0), Err(ClientError::InvalidHeight)));
    let h = Height::new(0, 1).unwrap();
    assert_eq!(h.revision_number(), 0);
    assert_eq!(h.revision_height(), 1);
}

#[test]
fn height_increment_and_decrement() {
    let h = Height::new(1, 10).unwrap();
    let up = h.increment().unwrap();
    assert_eq!(up, Height::new(1, 11).unwrap());
    let down = up.decrement().unwrap();
    assert_eq!(down, h);
}

/// Decrement fails where the height component would reach zero.
#[test]
fn height_decrement_at_floor_fails() {
    let h = Height::new(1, 1).unwrap();
    assert!(matches!(h.decrement(), Err(ClientError::InvalidHeight)));
}

/// Increment reports saturation instead of wrapping.
#[test]
fn height_increment_at_ceiling_fails() {
    let h = Height::new(1, u64::MAX).unwrap();
    assert!(matches!(h.increment(), Err(ClientError::HeightOverflow)));
}
