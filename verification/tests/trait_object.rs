use movable_ref::FatPointer;
use movable_ref::PointerRecomposition;
use movable_ref::SelfRef;
use movable_ref::TraitObject;

/// The address at which a value lies right now.
fn whereabouts<T: ?Sized>(r: &T) -> usize {
    let text = format!("{:p}", r);
    let start = text.find("0x").unwrap() + 2;
    let digits: String = text[start..].chars().take_while(|c| c.is_ascii_hexdigit()).collect();
    usize::from_str_radix(&digits, 16).unwrap()
}

/// The dispatch table through which the test structure is printed.
const DEBUG_TABLE: usize = 0xDEB6;

/// Prints a target through the dispatch table that a pointer carries.
fn print_through(table: usize, target: &TestStruct) -> String {
    match table {
        DEBUG_TABLE => format!("{:?}", target),
        _ => panic!("no such dispatch table"),
    }
}

#[derive(Debug)]
struct TestStruct {
    value: u32,
}

struct DynRefTest {
    t_ref: SelfRef<TraitObject<TestStruct>, i8>,
    t: TraitObject<TestStruct>,
}

impl DynRefTest {
    fn new(t: TestStruct) -> Self {
        let mut this = DynRefTest {
            t: TraitObject::new(t, DEBUG_TABLE),
            t_ref: SelfRef::null(),
        };
        let at = whereabouts(&this.t_ref);
        let target = whereabouts(&this.t);
        this.t_ref.set(at, target, &this.t).unwrap();
        this
    }

    fn t(&self) -> &TestStruct {
        self.t.as_ref()
    }

    fn resolve(&self) -> FatPointer<usize> {
        let at = whereabouts(&self.t_ref);
        assert!(self.t_ref.is_ready());
        assert!(self.t_ref.reaches(at));
        let found = self.t_ref.as_ref_unchecked(at);
        assert_eq!(found.address, whereabouts(&self.t));
        assert_eq!(found.components, PointerRecomposition::decompose(&self.t));
        found
    }

    fn t_ref(&self) -> &TraitObject<TestStruct> {
        self.resolve();
        &self.t
    }

    fn debug_str(&self) -> String {
        print_through(self.resolve().components, self.t_ref().as_ref())
    }
}

fn force_move<T>(t: T) -> T {
    t
}

#[test]
fn check_trait_object_simple() {
    let s = DynRefTest::new(TestStruct { value: 42 });

    assert_eq!(s.t().value, 42);

    let debug_str = s.debug_str();
    assert!(debug_str.contains("42"));
}

#[test]
fn check_trait_object_after_move() {
    let s = DynRefTest::new(TestStruct { value: 42 });

    assert_eq!(s.t().value, 42);

    let debug_str = s.debug_str();
    assert!(debug_str.contains("42"));

    let s = force_move(s);

    assert_eq!(s.t().value, 42);

    let debug_str = s.debug_str();
    assert!(debug_str.contains("42"));
}

#[test]
fn check_trait_object_after_move_heap() {
    let s = DynRefTest::new(TestStruct { value: 42 });

    assert_eq!(s.t().value, 42);

    let debug_str = s.debug_str();
    assert!(debug_str.contains("42"));

    let s = Box::new(s);

    assert_eq!(s.t().value, 42);

    let debug_str = s.debug_str();
    assert!(debug_str.contains("42"));
}
