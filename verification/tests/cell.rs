use movable_ref::CellLayout;
use movable_ref::IntegerOffsetError;
use movable_ref::IntegerOffsetErrorImpl;
use movable_ref::SelfRefCell;

fn behind(size: usize) -> CellLayout {
    CellLayout { value_offset: 0, ptr_offset: size }
}

#[test]
fn cell_gives_its_value_wherever_it_lies() {
    let cell: SelfRefCell<String, i16> =
        SelfRefCell::new("Hello, World!".to_string(), behind(24)).ok().unwrap();
    assert_eq!(cell.get(4096), "Hello, World!");
    assert_eq!(cell.get(1 << 40), "Hello, World!");
    assert_eq!(cell.try_get(8).map(|s| s.len()), Some(13));
    let boxed = Box::new(cell);
    assert_eq!(boxed.get(70_000), "Hello, World!");
    let all = vec![*boxed];
    assert_eq!(all[0].get(90_000), "Hello, World!");
}

#[test]
fn cell_value_can_be_changed_in_place() {
    let mut cell: SelfRefCell<String, i8> =
        SelfRefCell::new("Hello".to_string(), behind(24)).ok().unwrap();
    cell.get_mut(4096).push_str(", World!");
    assert_eq!(cell.get(4096), "Hello, World!");
    *cell.try_get_mut(8192).unwrap() = "Killer Move".to_string();
    assert_eq!(cell.get(8192), "Killer Move");
    assert_eq!(cell.into_inner(), "Killer Move");
}

#[test]
fn cell_with_the_pointer_in_front() {
    let layout = CellLayout { value_offset: 8, ptr_offset: 0 };
    let cell: SelfRefCell<[u8; 200], i8> = SelfRefCell::new([7; 200], layout).ok().unwrap();
    assert_eq!(cell.get(0)[199], 7);
    assert_eq!(cell.into_inner(), [7; 200]);
}

#[test]
fn cell_too_large_for_the_narrowest_width() {
    let r: Result<SelfRefCell<[u8; 200], i8>, IntegerOffsetError> =
        SelfRefCell::new([0; 200], behind(200));
    assert_eq!(
        r.err(),
        Some(IntegerOffsetError(IntegerOffsetErrorImpl::Conversion(-200)))
    );
    let r: Result<SelfRefCell<[u8; 128], i8>, IntegerOffsetError> =
        SelfRefCell::new([0; 128], behind(128));
    assert!(r.is_ok());
    let r: Result<SelfRefCell<[u8; 129], i8>, IntegerOffsetError> =
        SelfRefCell::new([0; 129], behind(129));
    assert_eq!(
        r.err(),
        Some(IntegerOffsetError(IntegerOffsetErrorImpl::Conversion(-129)))
    );
    let r: Result<SelfRefCell<[u8; 200], i16>, IntegerOffsetError> =
        SelfRefCell::new([0; 200], behind(200));
    assert!(r.is_ok());
}

#[test]
fn cell_layout_too_wide_for_any_width() {
    let layout = CellLayout { value_offset: usize::MAX, ptr_offset: 0 };
    let r: Result<SelfRefCell<u8, isize>, IntegerOffsetError> = SelfRefCell::new(1, layout);
    assert_eq!(
        r.err(),
        Some(IntegerOffsetError(IntegerOffsetErrorImpl::Sub(usize::MAX, 0)))
    );
}

#[test]
fn swapped_cells_keep_their_own_values() {
    let mut a: SelfRefCell<String, i8> =
        SelfRefCell::new("Hello World".to_string(), behind(24)).ok().unwrap();
    let mut b: SelfRefCell<String, i8> =
        SelfRefCell::new("Killer Move".to_string(), behind(24)).ok().unwrap();
    assert_eq!(a.get(1_000), "Hello World");
    assert_eq!(b.get(2_000), "Killer Move");
    std::mem::swap(&mut a, &mut b);
    assert_eq!(a.get(1_000), "Killer Move");
    assert_eq!(b.get(2_000), "Hello World");
}
