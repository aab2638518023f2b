use movable_ref::Empty;
use movable_ref::FatPointer;
use movable_ref::PointerRecomposition;
use movable_ref::SelfRef;

/// The address at which a value lies right now.
fn address_of<T: ?Sized>(r: &T) -> usize {
    let text = format!("{:p}", r);
    let start = text.find("0x").unwrap() + 2;
    let digits: String = text[start..].chars().take_while(|c| c.is_ascii_hexdigit()).collect();
    usize::from_str_radix(&digits, 16).unwrap()
}

/// Finds, inside a value that lies in memory, the part that a pointer leads to.
trait Locate<U: ?Sized + PointerRecomposition> {
    fn locate(&self, pointer: FatPointer<U::Components>) -> &U;
}

impl<T: PointerRecomposition<Components = Empty>> Locate<T> for T {
    fn locate(&self, pointer: FatPointer<Empty>) -> &T {
        assert_eq!(pointer.address, address_of(self));
        self
    }
}

impl Locate<[u8]> for [u8; 5] {
    fn locate(&self, pointer: FatPointer<usize>) -> &[u8] {
        let first = address_of(self);
        assert!(first <= pointer.address);
        let start = pointer.address - first;
        &self[start..start + pointer.components]
    }
}

struct SelfRefTest<T, U: ?Sized + PointerRecomposition> {
    t_ref: SelfRef<U, i8>,
    t: T,
}

fn id<T>(t: &mut T) -> &mut T {
    t
}

fn tail_from_two(x: &mut [u8; 5]) -> &mut [u8] {
    &mut x[2..]
}

impl<T: Locate<U>, U: ?Sized + PointerRecomposition> SelfRefTest<T, U> {
    pub fn new(t: T, f: fn(&mut T) -> &mut U) -> Self {
        let mut this = Self {
            t,
            t_ref: SelfRef::null(),
        };

        this.bind(f);

        this
    }

    pub fn bind(&mut self, f: fn(&mut T) -> &mut U) {
        let at = address_of(&self.t_ref);
        let value = f(&mut self.t);
        let target = address_of(value);
        self.t_ref.set(at, target, value).unwrap();
    }

    pub fn t(&self) -> &T {
        &self.t
    }

    pub fn t_mut(&mut self) -> &mut T {
        &mut self.t
    }

    pub fn t_ref(&self) -> &U {
        let at = address_of(&self.t_ref);
        assert!(self.t_ref.is_ready());
        assert!(self.t_ref.reaches(at));
        self.t.locate(self.t_ref.as_ref_unchecked(at))
    }
}

fn block_opt<T>(x: T) -> T {
    x
}

#[test]
fn simple_test() {
    let mut s = SelfRefTest {
        t: "Hello World",
        t_ref: SelfRef::null(),
    };

    s.bind(id);

    assert_eq!(s.t(), s.t_ref());
    assert_eq!(*s.t(), "Hello World");
    assert_eq!(*s.t_ref(), "Hello World");
}

#[test]
fn simple_move() {
    let mut s = SelfRefTest {
        t: "Hello World",
        t_ref: SelfRef::null(),
    };

    s.bind(id);

    assert_eq!(s.t(), s.t_ref());
    assert_eq!(*s.t(), "Hello World");
    assert_eq!(*s.t_ref(), "Hello World");

    let s = block_opt(s);

    assert_eq!(s.t(), s.t_ref());
    assert_eq!(*s.t(), "Hello World");
    assert_eq!(*s.t_ref(), "Hello World");
}

#[test]
fn simple_move_after_init() {
    let s = SelfRefTest::new("Hello World", id);

    assert_eq!(s.t(), s.t_ref());
    assert_eq!(*s.t(), "Hello World");
    assert_eq!(*s.t_ref(), "Hello World");

    let s = block_opt(s);

    assert_eq!(s.t(), s.t_ref());
    assert_eq!(*s.t(), "Hello World");
    assert_eq!(*s.t_ref(), "Hello World");
}

#[test]
fn swap() {
    let mut s = SelfRefTest::new("Hello World", id);
    let mut x = SelfRefTest::new("Killer Move", id);

    assert_eq!(*s.t(), "Hello World");
    assert_eq!(*x.t(), "Killer Move");

    assert_eq!(*s.t_ref(), "Hello World");
    assert_eq!(*x.t_ref(), "Killer Move");

    std::mem::swap(&mut s, &mut x);

    assert_eq!(*s.t(), "Killer Move");
    assert_eq!(*x.t(), "Hello World");

    assert_eq!(*s.t_ref(), "Killer Move");
    assert_eq!(*x.t_ref(), "Hello World");
}

#[test]
fn aliasing() {
    let mut s = SelfRefTest::new("Hello World", id);

    assert_eq!(s.t(), s.t_ref());

    *s.t_mut() = "Killer Move";

    assert_eq!(*s.t(), "Killer Move");
    assert_eq!(*s.t_ref(), "Killer Move");
}

#[test]
fn sub_str() {
    fn get_move(s: SelfRefTest<[u8; 5], [u8]>) {
        assert_eq!(*s.t(), [0, 1, 2, 3, 4]);
        assert_eq!(*s.t_ref(), [2, 3, 4]);
    }

    let s = SelfRefTest::new([0, 1, 2, 3, 4], tail_from_two);

    assert_eq!(*s.t(), [0, 1, 2, 3, 4]);
    assert_eq!(*s.t_ref(), [2, 3, 4]);

    get_move(s);
}

#[test]
fn check_copy() {
    fn is_copy<T: Copy>() {}

    #[allow(unused, path_statements)]
    fn check<T: ?Sized + PointerRecomposition, I: movable_ref::Offset>() {
        is_copy::<SelfRef<T, I>>;
    }
}

#[test]
fn moved_onto_the_heap_and_into_a_vector() {
    let s = SelfRefTest::new([0u8, 1, 2, 3, 4], tail_from_two);
    let before = address_of(&s);
    assert_eq!(*s.t_ref(), [2, 3, 4]);

    let boxed = Box::new(s);
    assert_ne!(address_of(&*boxed), before);
    assert_eq!(*boxed.t_ref(), [2, 3, 4]);

    let mut all = Vec::new();
    all.push(SelfRefTest::new([9u8, 8, 7, 6, 5], tail_from_two));
    all.push(*boxed);
    assert_eq!(*all[0].t_ref(), [7, 6, 5]);
    assert_eq!(*all[1].t_ref(), [2, 3, 4]);
    assert_eq!(*all[1].t(), [0, 1, 2, 3, 4]);
}
