use vstd::prelude::*;

verus! {

/// A handle to a value that several owners hold at once.
///
/// Cloning a `Shared` hands out another handle to the same value; every
/// handle reads the value it was created with.
pub struct Shared<T> {
    inner: std::sync::Arc<T>,
}

impl<T> View for Shared<T> {
    type V = T;

    closed spec fn view(&self) -> T {
        *self.inner
    }
}

impl<T> Shared<T> {
    /// Wraps `value` in a new shared handle.
    pub fn new(value: T) -> (s: Self)
        ensures
            s@ == value,
    {
        Shared { inner: std::sync::Arc::new(value) }
    }

    /// Borrows the shared value.
    pub fn get_ref(&self) -> (r: &T)
        ensures
            *r == self@,
    {
        &*self.inner
    }
}

impl<T> Clone for Shared<T> {
    /// Another handle to the same value.
    fn clone(&self) -> (s: Self)
        ensures
            s@ == self@,
    {
        Shared { inner: std::sync::Arc::clone(&self.inner) }
    }
}

/// The key of an entry of a PHP array.
#[derive(Debug, Clone, PartialEq, Eq)]
pub enum PhpArrayKey {
    /// An integer key.
    Index(i64),
    /// A string key.
    Name(String),
}

/// Whether an array with these keys, in this order, is a list: its keys
/// are the indices 0, 1, 2, ... in order (an empty array is one).
pub open spec fn is_list_spec(keys: Seq<PhpArrayKey>) -> bool {
    forall|i: int| 0 <= i < keys.len() ==> #[trigger] keys[i] == PhpArrayKey::Index(i as i64)
}

/// Whether a PHP array with these keys converts to a JSON array (a list)
/// rather than a JSON object.
pub fn keys_form_list(keys: &Vec<PhpArrayKey>) -> (b: bool)
    ensures
        b == is_list_spec(keys@),
{
    let mut i: usize = 0;
    while i < keys.len()
        invariant
            i <= keys@.len(),
            forall|j: int| 0 <= j < i ==> #[trigger] keys@[j] == PhpArrayKey::Index(j as i64),
        decreases keys@.len() - i,
    {
        let expected: i64 = i as i64;
        match &keys[i] {
            PhpArrayKey::Index(k) => {
                if *k != expected {
                    assert(keys@[i as int] != PhpArrayKey::Index(i as i64));
                    return false;
                }
            },
            PhpArrayKey::Name(_) => {
                return false;
            },
        }
        i = i + 1;
    }
    true
}

} // verus!
