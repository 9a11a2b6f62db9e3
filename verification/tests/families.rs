use vinit::families::{
    Compute, Families, Graphics, Protected, Sparse, Transfer, QUEUE_COMPUTE_BIT, QUEUE_GRAPHICS_BIT,
    QUEUE_PROTECTED_BIT, QUEUE_SPARSE_BINDING_BIT, QUEUE_TRANSFER_BIT,
};

fn none_u32() -> Families<Option<u32>> {
    Families::default()
}

#[test]
fn default_families_are_empty() {
    let f: Families<bool> = Families::default();
    assert!(!f.any_required());
    let g = none_u32();
    assert_eq!(g.graphics, None);
    assert_eq!(g.protected, None);
}

#[test]
fn set_then_get_reads_back() {
    let mut f = none_u32();
    f.set::<Transfer>(Some(7));
    assert_eq!(*f.get::<Transfer>(), Some(7));
    assert_eq!(*f.get::<Graphics>(), None);
    *f.get_mut::<Sparse>() = Some(3);
    assert_eq!(f.sparse, Some(3));
    assert_eq!(f.transfer, Some(7));
}

#[test]
fn is_required_and_any_required() {
    let mut f: Families<bool> = Families::default();
    assert!(!f.is_required::<Compute>());
    f.set::<Compute>(true);
    assert!(f.is_required::<Compute>());
    assert!(!f.is_required::<Protected>());
    assert!(f.any_required());
}

#[test]
fn query_takes_first_index_per_family() {
    let flags = vec![
        QUEUE_TRANSFER_BIT,
        QUEUE_GRAPHICS_BIT | QUEUE_COMPUTE_BIT | QUEUE_TRANSFER_BIT,
        QUEUE_COMPUTE_BIT,
        QUEUE_SPARSE_BINDING_BIT | QUEUE_GRAPHICS_BIT,
    ];
    let f = Families::query(&flags);
    assert_eq!(f.graphics, Some(1));
    assert_eq!(f.compute, Some(1));
    assert_eq!(f.transfer, Some(0));
    assert_eq!(f.sparse, Some(3));
    assert_eq!(f.protected, None);
}

#[test]
fn query_of_no_queue_families() {
    let f = Families::query(&Vec::new());
    assert_eq!(f.graphics, None);
    assert_eq!(f.compute, None);
    let g = Families::query(&vec![QUEUE_PROTECTED_BIT | QUEUE_GRAPHICS_BIT]);
    assert_eq!(g.protected, Some(0));
    assert_eq!(g.graphics, Some(0));
}

#[test]
fn unique_indices_lists_each_index_once() {
    let f = Families { graphics: Some(0), compute: Some(0), transfer: Some(2), sparse: None, protected: Some(2) };
    let mut v = f.unique_indices();
    v.sort();
    assert_eq!(v, vec![0, 2]);
    assert!(none_u32().unique_indices().is_empty());
}

#[test]
fn filter_required_keeps_required_only() {
    let f = Families { graphics: Some(0), compute: Some(1), transfer: Some(2), sparse: Some(3), protected: None };
    let req = Families { graphics: true, compute: false, transfer: true, sparse: false, protected: true };
    let r = f.filter_required(&req);
    assert_eq!(r.graphics, Some(0));
    assert_eq!(r.compute, None);
    assert_eq!(r.transfer, Some(2));
    assert_eq!(r.sparse, None);
    assert_eq!(r.protected, None);
    let again = r.filter_required(&req);
    assert_eq!(again.graphics, Some(0));
    assert_eq!(again.transfer, Some(2));
}
