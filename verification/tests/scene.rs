use liquid_glass::scene::{render_order, GlassId};

#[test]
fn render_order_is_sorted_by_z_index() {
    // Nodes pushed in order: GlassId(2) at z 10, then GlassId(1) at z -1.
    let ids = [GlassId(2), GlassId(1)];
    let order = render_order(&[10, -1]);

    assert_eq!(order.iter().map(|&i| ids[i]).collect::<Vec<_>>(), [GlassId(1), GlassId(2)]);
}

#[test]
fn render_order_keeps_push_order_for_equal_z() {
    assert_eq!(render_order(&[3, 0, 3, -2, 0, 3]), vec![3, 1, 4, 0, 2, 5]);
    assert_eq!(render_order(&[]), Vec::<usize>::new());
    assert_eq!(render_order(&[5, 5, 5]), vec![0, 1, 2]);
    assert_eq!(render_order(&[i32::MAX, i32::MIN]), vec![1, 0]);
}

#[test]
fn glass_ids_display_with_their_number() {
    assert_eq!(GlassId(7).to_string(), "glass-7");
    assert_eq!(GlassId(0).to_string(), "glass-0");
    assert_eq!(GlassId(1234567890).to_string(), "glass-1234567890");
    assert_eq!(GlassId(u64::MAX).to_string(), format!("glass-{}", u64::MAX));
    assert_eq!(GlassId::default(), GlassId(0));
}
