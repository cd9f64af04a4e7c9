use vstd::prelude::*;

verus! {

/// One component of a grouping key: a label, a number (bar number, week of
/// month) or a flag (continuation or not).
#[derive(Debug)]
pub enum KeyPart {
    Text(String),
    Num(i32),
    Flag(bool),
}

/// The mathematical value of a key component.
pub enum KeyVal {
    Text(Seq<char>),
    Num(int),
    Flag(bool),
}

impl View for KeyPart {
    type V = KeyVal;

    open spec fn view(&self) -> KeyVal {
        match self {
            KeyPart::Text(s) => KeyVal::Text(s@),
            KeyPart::Num(n) => KeyVal::Num(*n as int),
            KeyPart::Flag(b) => KeyVal::Flag(*b),
        }
    }
}

/// The value of a whole key.
pub open spec fn key_view(k: Seq<KeyPart>) -> Seq<KeyVal> {
    k.map_values(|p: KeyPart| p@)
}

impl KeyPart {
    /// A copy of this component with the same value.
    pub fn copy(&self) -> (r: KeyPart)
        ensures
            r@ == self@,
    {
        match self {
            KeyPart::Text(s) => KeyPart::Text(s.clone()),
            KeyPart::Num(n) => KeyPart::Num(*n),
            KeyPart::Flag(b) => KeyPart::Flag(*b),
        }
    }

    /// Whether two components have the same value.
    pub fn same(&self, other: &KeyPart) -> (r: bool)
        ensures
            r == (self@ == other@),
    {
        match self {
            KeyPart::Text(a) => match other {
                KeyPart::Text(b) => {
                    let r = a.eq(b);
                    r
                },
                _ => false,
            },
            KeyPart::Num(a) => match other {
                KeyPart::Num(b) => *a == *b,
                _ => false,
            },
            KeyPart::Flag(a) => match other {
                KeyPart::Flag(b) => *a == *b,
                _ => false,
            },
        }
    }
}

/// A copy of a key with the same value.
pub fn copy_key(k: &Vec<KeyPart>) -> (r: Vec<KeyPart>)
    ensures
        key_view(r@) == key_view(k@),
{
    let mut r: Vec<KeyPart> = Vec::new();
    let mut i: usize = 0;
    while i < k.len()
        invariant
            i <= k.len(),
            r@.len() == i,
            forall|j: int| 0 <= j < i ==> #[trigger] r@[j]@ == k@[j]@,
        decreases k.len() - i,
    {
        r.push(k[i].copy());
        i = i + 1;
    }
    assert(key_view(r@) =~= key_view(k@));
    r
}

/// Whether two keys have the same value.
pub fn same_key(a: &Vec<KeyPart>, b: &Vec<KeyPart>) -> (r: bool)
    ensures
        r == (key_view(a@) == key_view(b@)),
{
    if a.len() != b.len() {
        assert(key_view(a@).len() != key_view(b@).len());
        return false;
    }
    let mut i: usize = 0;
    while i < a.len()
        invariant
            a.len() == b.len(),
            i <= a.len(),
            forall|j: int| 0 <= j < i ==> #[trigger] a@[j]@ == b@[j]@,
        decreases a.len() - i,
    {
        if !a[i].same(&b[i]) {
            assert(key_view(a@)[i as int] != key_view(b@)[i as int]);
            return false;
        }
        i = i + 1;
    }
    assert(key_view(a@) =~= key_view(b@));
    true
}

/// The key made of the given components, in order.
pub fn key1(p0: KeyPart) -> (r: Vec<KeyPart>)
    ensures
        key_view(r@) == seq![p0@],
{
    let ghost want = seq![p0@];
    let r = vec![p0];
    assert(key_view(r@) =~= want);
    r
}

/// The key made of the given components, in order.
pub fn key2(p0: KeyPart, p1: KeyPart) -> (r: Vec<KeyPart>)
    ensures
        key_view(r@) == seq![p0@, p1@],
{
    let ghost want = seq![p0@, p1@];
    let r = vec![p0, p1];
    assert(key_view(r@) =~= want);
    r
}

/// The key made of the given components, in order.
pub fn key3(p0: KeyPart, p1: KeyPart, p2: KeyPart) -> (r: Vec<KeyPart>)
    ensures
        key_view(r@) == seq![p0@, p1@, p2@],
{
    let ghost want = seq![p0@, p1@, p2@];
    let r = vec![p0, p1, p2];
    assert(key_view(r@) =~= want);
    r
}

/// The key made of the given components, in order.
pub fn key4(p0: KeyPart, p1: KeyPart, p2: KeyPart, p3: KeyPart) -> (r: Vec<KeyPart>)
    ensures
        key_view(r@) == seq![p0@, p1@, p2@, p3@],
{
    let ghost want = seq![p0@, p1@, p2@, p3@];
    let r = vec![p0, p1, p2, p3];
    assert(key_view(r@) =~= want);
    r
}

/// The key made of the given components, in order.
pub fn key5(p0: KeyPart, p1: KeyPart, p2: KeyPart, p3: KeyPart, p4: KeyPart) -> (r: Vec<KeyPart>)
    ensures
        key_view(r@) == seq![p0@, p1@, p2@, p3@, p4@],
{
    let ghost want = seq![p0@, p1@, p2@, p3@, p4@];
    let r = vec![p0, p1, p2, p3, p4];
    assert(key_view(r@) =~= want);
    r
}

pub fn text(s: &String) -> (r: KeyPart)
    ensures
        r@ == KeyVal::Text(s@),
{
    KeyPart::Text(s.clone())
}

} // verus!
