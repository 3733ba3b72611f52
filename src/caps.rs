use vstd::prelude::*;

verus! {

/// The kernel's count of key codes: every key and button code lies below it.
pub const KEY_CNT: u16 = 0x300;

/// The kernel's count of relative-axis codes.
pub const REL_CNT: u16 = 0x10;

/// A set of key and button codes, kept in evdev's attribute set.
#[verifier::external_body]
pub struct KeyCodeSet {
    set: evdev::AttributeSet<evdev::Key>,
}

/// A set of relative-axis codes, kept in evdev's attribute set.
#[verifier::external_body]
pub struct RelAxisCodeSet {
    set: evdev::AttributeSet<evdev::RelativeAxisType>,
}

/// The codes a [`KeyCodeSet`] holds.
pub uninterp spec fn key_codes(s: KeyCodeSet) -> Set<u16>;

/// The codes a [`RelAxisCodeSet`] holds.
pub uninterp spec fn rel_axis_codes(s: RelAxisCodeSet) -> Set<u16>;

impl KeyCodeSet {
    /// Relies on `AttributeSet::new`: a set with no bit set.
    #[verifier::external_body]
    pub(crate) fn new() -> (r: KeyCodeSet)
        ensures
            key_codes(r) == Set::<u16>::empty(),
    {
        KeyCodeSet { set: evdev::AttributeSet::new() }
    }

    /// Relies on `AttributeSetRef::insert`: sets the bit of the code, which must lie below
    /// the kernel's count of key codes (the bit slice panics past its end).
    #[verifier::external_body]
    pub(crate) fn insert(&mut self, code: u16)
        requires
            code < KEY_CNT,
        ensures
            key_codes(*final(self)) == key_codes(*old(self)).insert(code),
    {
        self.set.insert(evdev::Key(code))
    }

    /// Relies on `AttributeSetRef::contains`: whether the bit of the code is set; false
    /// past the end of the bit slice.
    #[verifier::external_body]
    pub(crate) fn contains(&self, code: u16) -> (r: bool)
        ensures
            r == key_codes(*self).contains(code),
    {
        self.set.contains(evdev::Key(code))
    }

    /// Relies on `AttributeSetRef::iter`: each set bit once, in increasing order.
    #[verifier::external_body]
    pub(crate) fn codes(&self) -> (r: Vec<u16>)
        ensures
            r@.to_set() == key_codes(*self),
            r@.no_duplicates(),
    {
        self.set.iter().map(|k| k.0).collect()
    }
}

impl RelAxisCodeSet {
    /// Relies on `AttributeSet::new`: a set with no bit set.
    #[verifier::external_body]
    pub(crate) fn new() -> (r: RelAxisCodeSet)
        ensures
            rel_axis_codes(r) == Set::<u16>::empty(),
    {
        RelAxisCodeSet { set: evdev::AttributeSet::new() }
    }

    /// Relies on `AttributeSetRef::insert`: sets the bit of the code, which must lie below
    /// the kernel's count of relative-axis codes (the bit slice panics past its end).
    #[verifier::external_body]
    pub(crate) fn insert(&mut self, code: u16)
        requires
            code < REL_CNT,
        ensures
            rel_axis_codes(*final(self)) == rel_axis_codes(*old(self)).insert(code),
    {
        self.set.insert(evdev::RelativeAxisType(code))
    }

    /// Relies on `AttributeSetRef::contains`: whether the bit of the code is set; false
    /// past the end of the bit slice.
    #[verifier::external_body]
    pub(crate) fn contains(&self, code: u16) -> (r: bool)
        ensures
            r == rel_axis_codes(*self).contains(code),
    {
        self.set.contains(evdev::RelativeAxisType(code))
    }

    /// Relies on `AttributeSetRef::iter`: each set bit once, in increasing order.
    #[verifier::external_body]
    pub(crate) fn codes(&self) -> (r: Vec<u16>)
        ensures
            r@.to_set() == rel_axis_codes(*self),
            r@.no_duplicates(),
    {
        self.set.iter().map(|a| a.0).collect()
    }
}

} // verus!
