//! The in-memory side of the settings store: cached values and change generations.
use vstd::prelude::*;

verus! {

/// A value read from disk once and then served from memory until it is replaced or dropped.
pub struct SettingCache<T> {
    value: Option<T>,
}

impl<T> View for SettingCache<T> {
    type V = Option<T>;

    closed spec fn view(&self) -> Option<T> {
        self.value
    }
}

impl<T> SettingCache<T> {
    /// An empty cache: the next read goes to disk.
    pub fn new() -> (r: Self)
        ensures
            r@ is None,
    {
        SettingCache { value: None }
    }

    /// The cached value, if there is one.
    pub fn cached(&self) -> (r: Option<&T>)
        ensures
            match r {
                Some(v) => self@ == Some(*v),
                None => self@ is None,
            },
    {
        match &self.value {
            Some(v) => Some(v),
            None => None,
        }
    }

    /// Keeps `value` as the current one: after a load from disk or a write to disk.
    pub fn store(&mut self, value: T)
        ensures
            final(self)@ == Some(value),
    {
        self.value = Some(value);
    }

    /// Drops the cached value: the next read goes to disk.
    pub fn invalidate(&mut self)
        ensures
            final(self)@ is None,
    {
        self.value = None;
    }
}

/// A counter of writes to a setting, so that holders of values derived from it can tell
/// whether they are stale. It wraps around at its largest value, as an atomic counter does.
pub struct ChangeGeneration {
    value: u64,
}

impl View for ChangeGeneration {
    type V = u64;

    closed spec fn view(&self) -> u64 {
        self.value
    }
}

/// The generation after one more write.
pub open spec fn next_generation(g: u64) -> u64 {
    if g == u64::MAX { 0 } else { (g + 1) as u64 }
}

impl ChangeGeneration {
    /// No write yet.
    pub fn new() -> (r: Self)
        ensures
            r@ == 0,
    {
        ChangeGeneration { value: 0 }
    }

    /// The current generation.
    pub fn current(&self) -> (r: u64)
        ensures
            r == self@,
    {
        self.value
    }

    /// Records one more write.
    pub fn bump(&mut self)
        ensures
            final(self)@ == next_generation(old(self)@),
    {
        self.value = self.value.wrapping_add(1);
    }
}

/// A write always changes the generation, so a holder of an older value notices.
pub proof fn lemma_bump_changes_generation(g: u64)
    ensures
        next_generation(g) != g,
{
}

/// A value built for one generation of a setting, reused while the generation stays the same
/// (such as an outgoing-request client built for the current proxy settings).
pub struct GenerationCache<T> {
    generation: u64,
    value: T,
}

impl<T> GenerationCache<T> {
    /// The value built for `generation`.
    pub fn new(generation: u64, value: T) -> (r: Self)
        ensures
            r.generation() == generation,
            r.value() == value,
    {
        GenerationCache { generation, value }
    }

    /// The generation the value was built for.
    pub closed spec fn generation(&self) -> u64 {
        self.generation
    }

    /// The value.
    pub closed spec fn value(&self) -> T {
        self.value
    }

    /// The value, when it was built for `generation`; nothing when it is stale.
    pub fn current(&self, generation: u64) -> (r: Option<&T>)
        ensures
            match r {
                Some(v) => self.generation() == generation && *v == self.value(),
                None => self.generation() != generation,
            },
    {
        if self.generation == generation {
            Some(&self.value)
        } else {
            None
        }
    }

    /// Replaces a stale value by one built for `generation`.
    pub fn replace(&mut self, generation: u64, value: T)
        ensures
            final(self).generation() == generation,
            final(self).value() == value,
    {
        self.generation = generation;
        self.value = value;
    }
}

/// A value built at the generation of the last write is stale once the setting is written
/// again: the lookup after the write misses it, and the holder rebuilds.
pub proof fn lemma_write_makes_cached_value_stale<T>(c: GenerationCache<T>, g: u64)
    requires
        c.generation() == g,
    ensures
        c.generation() != next_generation(g),
{
    lemma_bump_changes_generation(g);
}

} // verus!
