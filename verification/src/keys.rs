//! Keys that name cached resources.

use vstd::prelude::*;

verus! {

/// A value that names a loadable resource of type `Target`.
///
/// A key is compared by its view: two keys with the same view name the same
/// resource.
pub trait CacheKey<Target>: View + Sized {
    type Target;

    /// Whether `self` and `other` name the same resource.
    fn same_key(&self, other: &Self) -> (same: bool)
        ensures
            same == (self@ == other@),
    ;

    /// A second key for the resource that `self` names.
    fn clone_key(&self) -> (copy: Self)
        ensures
            copy@ == self@,
    ;
}

/// `str` equality: whether the two strings hold the same characters.
#[verifier::external_body]
pub(crate) fn str_equal(left: &str, right: &str) -> (equal: bool)
    ensures
        equal == (left@ == right@),
{
    left == right
}

/// Key made of a path.
#[derive(Debug, Hash, Eq, PartialEq, PartialOrd)]
pub struct PathKey(pub &'static str);

impl Clone for PathKey {
    fn clone(&self) -> (copy: Self)
        ensures
            copy == *self,
    {
        PathKey(self.0)
    }
}

impl View for PathKey {
    type V = Seq<char>;

    open spec fn view(&self) -> Seq<char> {
        self.0@
    }
}

impl PathKey {
    /// The key for the resource at `path`.
    pub fn new(path: &'static str) -> (key: PathKey)
        ensures
            key@ == path@,
    {
        PathKey(path)
    }
}

impl<T> CacheKey<T> for PathKey {
    type Target = T;

    fn same_key(&self, other: &Self) -> (same: bool) {
        str_equal(self.0, other.0)
    }

    fn clone_key(&self) -> (copy: Self) {
        self.clone()
    }
}

impl From<&'static str> for PathKey {
    fn from(path: &'static str) -> (key: PathKey)
        ensures
            key == PathKey(path),
    {
        PathKey(path)
    }
}

impl vstd::std_specs::convert::FromSpecImpl<&'static str> for PathKey {
    open spec fn obeys_from_spec() -> bool {
        true
    }

    open spec fn from_spec(path: &'static str) -> PathKey {
        PathKey(path)
    }
}

/// Key of a bitmap font: the path of its image and the size of one
/// character in it, width first.
#[derive(Debug, Hash, Eq, PartialEq, PartialOrd)]
pub struct BitmapFontKey(pub String, pub (u32, u32));

impl Clone for BitmapFontKey {
    fn clone(&self) -> (copy: Self)
        ensures
            copy@ == self@,
    {
        BitmapFontKey(self.0.clone(), (self.1.0, self.1.1))
    }
}

impl View for BitmapFontKey {
    type V = (Seq<char>, (u32, u32));

    open spec fn view(&self) -> (Seq<char>, (u32, u32)) {
        (self.0@, self.1)
    }
}

impl BitmapFontKey {
    /// The key for the font at `path` with characters of `char_size`.
    pub fn new(path: &str, char_size: (u32, u32)) -> (key: BitmapFontKey)
        ensures
            key@ == (path@, char_size),
    {
        BitmapFontKey(path.to_owned(), char_size)
    }
}

impl<T> CacheKey<T> for BitmapFontKey {
    type Target = T;

    fn same_key(&self, other: &Self) -> (same: bool) {
        self.0 == other.0 && self.1.0 == other.1.0 && self.1.1 == other.1.1
    }

    fn clone_key(&self) -> (copy: Self) {
        self.clone()
    }
}

impl<'a> From<(&'a str, (u32, u32))> for BitmapFontKey {
    fn from(parts: (&'a str, (u32, u32))) -> (key: BitmapFontKey)
        ensures
            key@ == (parts.0@, parts.1),
    {
        BitmapFontKey::new(parts.0, parts.1)
    }
}

/// What `from` builds is said by its own contract: no spec function
/// stands for the key of a text and a size.
impl<'a> vstd::std_specs::convert::FromSpecImpl<(&'a str, (u32, u32))> for BitmapFontKey {
    open spec fn obeys_from_spec() -> bool {
        false
    }

    open spec fn from_spec(parts: (&'a str, (u32, u32))) -> BitmapFontKey {
        arbitrary()
    }
}

} // verus!
