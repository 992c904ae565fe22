//! Keyed boolean input state.
//!
//! A [`ControlPalette`] holds a fixed, ordered set of distinct key names and
//! one pressed flag per key. It is built once, written every tick by the
//! input poll, and read every tick by the throttle integrator. Its
//! mathematical model is the map from key name (a character sequence) to
//! flag; the key order is kept alongside, since readings are answered in
//! query order.

use vstd::prelude::*;

verus! {

/// A failure of palette configuration or lookup: two equal keys where
/// distinct ones are demanded, a key the palette does not track, or paired
/// lists of unequal length.
#[derive(Clone, Copy, PartialEq, Eq, Structural, Debug)]
pub enum ConfigurationError {
    DuplicateKey,
    UnknownKey,
    LengthMismatch,
}

/// The views of a list of key names.
pub open spec fn key_views(keys: Seq<String>) -> Seq<Seq<char>> {
    keys.map_values(|s: String| s@)
}

/// No two keys of the list are equal.
pub open spec fn keys_unique(keys: Seq<Seq<char>>) -> bool {
    forall|i: int, j: int|
        0 <= i < j < keys.len() ==> #[trigger] keys[i] != #[trigger] keys[j]
}

/// Some position of the list holds `k`.
pub open spec fn has_key(keys: Seq<Seq<char>>, k: Seq<char>) -> bool {
    exists|i: int| 0 <= i < keys.len() && keys[i] == k
}

/// A position of the list holding `k`; with unique keys, the position.
pub open spec fn key_at(keys: Seq<Seq<char>>, k: Seq<char>) -> int {
    choose|i: int| 0 <= i < keys.len() && keys[i] == k
}

/// Ordered set of distinct key names with one pressed flag per key.
pub struct ControlPalette {
    keys: Vec<String>,
    pressed: Vec<bool>,
}

impl View for ControlPalette {
    type V = Map<Seq<char>, bool>;

    closed spec fn view(&self) -> Map<Seq<char>, bool> {
        Map::new(
            |k: Seq<char>| has_key(key_views(self.keys@), k),
            |k: Seq<char>| self.pressed@[key_at(key_views(self.keys@), k)],
        )
    }
}

/// Whether all the named keys are distinct. Quadratic comparison over the
/// list, answering false exactly when two positions hold equal names.
pub fn ensure_unique_keys(keys: &Vec<String>) -> (r: bool)
    ensures
        r == keys_unique(key_views(keys@)),
{
    let ghost kv = key_views(keys@);
    let n = keys.len();
    let mut i: usize = 0;
    while i < n
        invariant
            n == keys@.len(),
            kv == key_views(keys@),
            i <= n,
            forall|a: int, b: int| 0 <= a < i && a < b < n ==> #[trigger] kv[a] != #[trigger] kv[b],
        decreases n - i,
    {
        let mut j: usize = i + 1;
        while j < n
            invariant
                n == keys@.len(),
                kv == key_views(keys@),
                i < j <= n,
                i < n,
                forall|b: int| i < b < j ==> kv[i as int] != #[trigger] kv[b],
            decreases n - j,
        {
            if keys[i] == keys[j] {
                assert(kv[i as int] == kv[j as int]);
                assert(!keys_unique(kv));
                return false;
            }
            j += 1;
        }
        i += 1;
    }
    true
}

impl ControlPalette {
    /// The palette is well formed: one flag per key, all keys distinct.
    pub closed spec fn wf(&self) -> bool {
        &&& self.keys@.len() == self.pressed@.len()
        &&& keys_unique(key_views(self.keys@))
    }

    /// The ordered key names, as the model sees them.
    pub closed spec fn key_seq(&self) -> Seq<Seq<char>> {
        key_views(self.keys@)
    }

    /// A new palette over the given keys, every flag false. Fails with
    /// `DuplicateKey` exactly when two keys are equal.
    pub fn new(keys: Vec<String>) -> (r: Result<ControlPalette, ConfigurationError>)
        ensures
            r is Ok <==> keys_unique(key_views(keys@)),
            r matches Ok(p) ==> p.wf() && p.key_seq() == key_views(keys@) && forall|k: Seq<char>|
                has_key(key_views(keys@), k) ==> #[trigger] p@[k] == false,
            r matches Err(e) ==> e == ConfigurationError::DuplicateKey,
    {
        if !ensure_unique_keys(&keys) {
            return Err(ConfigurationError::DuplicateKey);
        }
        let n = keys.len();
        let mut pressed: Vec<bool> = Vec::new();
        let mut i: usize = 0;
        while i < n
            invariant
                i <= n,
                pressed@.len() == i,
                forall|a: int| 0 <= a < i ==> #[trigger] pressed@[a] == false,
            decreases n - i,
        {
            pressed.push(false);
            i += 1;
        }
        let p = ControlPalette { keys, pressed };
        assert forall|k: Seq<char>| has_key(p.key_seq(), k) implies #[trigger] p@[k]
            == false by {
            let idx = key_at(p.key_seq(), k);
            assert(0 <= idx < p.key_seq().len() && p.key_seq()[idx] == k);
        }
        Ok(p)
    }

    /// Number of tracked keys.
    pub fn key_count(&self) -> (r: usize)
        ensures
            r == self.key_seq().len(),
    {
        self.keys.len()
    }

    /// The name of the key at a position, in construction order.
    pub fn key_name(&self, i: usize) -> (r: &String)
        requires
            i < self.key_seq().len(),
        ensures
            r@ == self.key_seq()[i as int],
    {
        &self.keys[i]
    }

    /// The position of a key, if the palette tracks it.
    fn position_of(&self, key: &String) -> (r: Option<usize>)
        requires
            self.wf(),
        ensures
            match r {
                Some(i) => i < self.key_seq().len() && self.key_seq()[i as int] == key@
                    && key_at(self.key_seq(), key@) == i as int,
                None => !has_key(self.key_seq(), key@),
            },
    {
        let ghost kv = self.key_seq();
        let n = self.keys.len();
        let mut i: usize = 0;
        while i < n
            invariant
                n == self.keys@.len(),
                kv == self.key_seq(),
                i <= n,
                self.wf(),
                forall|a: int| 0 <= a < i ==> #[trigger] kv[a] != key@,
            decreases n - i,
        {
            if self.keys[i] == *key {
                proof {
                    assert(kv[i as int] == self.keys@[i as int]@);
                    assert(has_key(kv, key@));
                    let j = key_at(kv, key@);
                    assert(0 <= j < kv.len() && kv[j] == key@);
                    if j != i as int {
                        assert(kv[i as int] == key@);
                        assert(false);
                    }
                }
                return Some(i);
            }
            i += 1;
        }
        None
    }

    /// The pressed flag of a key. Fails with `UnknownKey` exactly when the
    /// palette does not track the key.
    pub fn get_value(&self, key: &String) -> (r: Result<bool, ConfigurationError>)
        requires
            self.wf(),
        ensures
            has_key(self.key_seq(), key@) ==> r == Ok::<bool, ConfigurationError>(self@[key@]),
            !has_key(self.key_seq(), key@) ==> r == Err::<bool, ConfigurationError>(
                ConfigurationError::UnknownKey,
            ),
    {
        match self.position_of(key) {
            Some(i) => Ok(self.pressed[i]),
            None => Err(ConfigurationError::UnknownKey),
        }
    }

    /// Overwrites the pressed flag of a key, touching nothing else. Fails
    /// with `UnknownKey`, leaving the palette unchanged, exactly when the
    /// palette does not track the key.
    pub fn set_value(&mut self, key: &String, pressed: bool) -> (r: Result<
        (),
        ConfigurationError,
    >)
        requires
            old(self).wf(),
        ensures
            final(self).wf(),
            final(self).key_seq() == old(self).key_seq(),
            has_key(old(self).key_seq(), key@) ==> r is Ok && final(self)@ == old(self)@.insert(
                key@,
                pressed,
            ),
            !has_key(old(self).key_seq(), key@) ==> r == Err::<(), ConfigurationError>(
                ConfigurationError::UnknownKey,
            ) && *final(self) == *old(self),
    {
        match self.position_of(key) {
            Some(i) => {
                self.pressed.set(i, pressed);
                proof {
                    lemma_pointwise_insert(old(self), self, key@, pressed, i as int);
                }
                Ok(())
            },
            None => Err(ConfigurationError::UnknownKey),
        }
    }

    /// The pressed flags of the queried keys, in query order. Fails with
    /// `DuplicateKey` when two queried keys are equal, else with
    /// `UnknownKey` when some queried key is untracked.
    pub fn get_values(&self, keys: Vec<String>) -> (r: Result<Vec<bool>, ConfigurationError>)
        requires
            self.wf(),
        ensures
            !keys_unique(key_views(keys@)) ==> r == Err::<Vec<bool>, ConfigurationError>(
                ConfigurationError::DuplicateKey,
            ),
            keys_unique(key_views(keys@)) && (forall|i: int|
                0 <= i < keys@.len() ==> has_key(self.key_seq(), #[trigger] keys@[i]@)) ==> (
            r matches Ok(values) && values@.len() == keys@.len() && forall|i: int|
                0 <= i < keys@.len() ==> #[trigger] values@[i] == self@[keys@[i]@]),
            keys_unique(key_views(keys@)) && !(forall|i: int|
                0 <= i < keys@.len() ==> has_key(self.key_seq(), #[trigger] keys@[i]@)) ==> r
                == Err::<Vec<bool>, ConfigurationError>(ConfigurationError::UnknownKey),
    {
        if !ensure_unique_keys(&keys) {
            return Err(ConfigurationError::DuplicateKey);
        }
        let n = keys.len();
        let mut values: Vec<bool> = Vec::new();
        let mut i: usize = 0;
        while i < n
            invariant
                n == keys@.len(),
                self.wf(),
                keys_unique(key_views(keys@)),
                i <= n,
                values@.len() == i,
                forall|a: int| 0 <= a < i ==> has_key(self.key_seq(), #[trigger] keys@[a]@),
                forall|a: int| 0 <= a < i ==> #[trigger] values@[a] == self@[keys@[a]@],
            decreases n - i,
        {
            match self.get_value(&keys[i]) {
                Ok(v) => values.push(v),
                Err(_) => {
                    return Err(ConfigurationError::UnknownKey);
                },
            }
            i += 1;
        }
        Ok(values)
    }

    /// Overwrites the pressed flags of the named keys with the paired
    /// values, touching no other key. Fails, changing nothing, with
    /// `LengthMismatch` when the lists differ in length, else with
    /// `DuplicateKey` when two named keys are equal, else with `UnknownKey`
    /// when some named key is untracked.
    pub fn set_values(&mut self, keys: Vec<String>, pressed: Vec<bool>) -> (r: Result<
        (),
        ConfigurationError,
    >)
        requires
            old(self).wf(),
        ensures
            final(self).wf(),
            final(self).key_seq() == old(self).key_seq(),
            keys@.len() != pressed@.len() ==> r == Err::<(), ConfigurationError>(
                ConfigurationError::LengthMismatch,
            ) && *final(self) == *old(self),
            keys@.len() == pressed@.len() && !keys_unique(key_views(keys@)) ==> r == Err::<
                (),
                ConfigurationError,
            >(ConfigurationError::DuplicateKey) && *final(self) == *old(self),
            keys@.len() == pressed@.len() && keys_unique(key_views(keys@)) && !(forall|i: int|
                0 <= i < keys@.len() ==> has_key(old(self).key_seq(), #[trigger] keys@[i]@)) ==> r
                == Err::<(), ConfigurationError>(ConfigurationError::UnknownKey) && *final(self)
                == *old(self),
            keys@.len() == pressed@.len() && keys_unique(key_views(keys@)) && (forall|i: int|
                0 <= i < keys@.len() ==> has_key(old(self).key_seq(), #[trigger] keys@[i]@)) ==> r
                is Ok && (forall|i: int|
                0 <= i < keys@.len() ==> #[trigger] final(self)@[keys@[i]@] == pressed@[i]) && (
            forall|k: Seq<char>|
                has_key(old(self).key_seq(), k) && (forall|i: int|
                    0 <= i < keys@.len() ==> #[trigger] keys@[i]@ != k)
                    ==> #[trigger] final(self)@[k] == old(self)@[k]),
    {
        if keys.len() != pressed.len() {
            return Err(ConfigurationError::LengthMismatch);
        }
        if !ensure_unique_keys(&keys) {
            return Err(ConfigurationError::DuplicateKey);
        }
        let n = keys.len();
        let mut i: usize = 0;
        while i < n
            invariant
                n == keys@.len(),
                n == pressed@.len(),
                self.wf(),
                *self == *old(self),
                keys_unique(key_views(keys@)),
                i <= n,
                forall|a: int| 0 <= a < i ==> has_key(self.key_seq(), #[trigger] keys@[a]@),
            decreases n - i,
        {
            match self.position_of(&keys[i]) {
                Some(_) => {},
                None => {
                    return Err(ConfigurationError::UnknownKey);
                },
            }
            i += 1;
        }
        let mut i: usize = 0;
        while i < n
            invariant
                n == keys@.len(),
                n == pressed@.len(),
                self.wf(),
                self.key_seq() == old(self).key_seq(),
                keys_unique(key_views(keys@)),
                i <= n,
                forall|a: int| 0 <= a < n ==> has_key(old(self).key_seq(), #[trigger] keys@[a]@),
                forall|a: int| 0 <= a < i ==> #[trigger] self@[keys@[a]@] == pressed@[a],
                forall|k: Seq<char>|
                    has_key(old(self).key_seq(), k) && (forall|a: int|
                        0 <= a < i ==> #[trigger] keys@[a]@ != k)
                        ==> #[trigger] self@[k] == old(self)@[k],
            decreases n - i,
        {
            let r = self.set_value(&keys[i], pressed[i]);
            proof {
                assert(r is Ok);
                assert forall|a: int| 0 <= a < i + 1 implies #[trigger] self@[keys@[a]@]
                    == pressed@[a] by {
                    if a < i {
                        assert(key_views(keys@)[a] == keys@[a]@);
                        assert(key_views(keys@)[i as int] == keys@[i as int]@);
                        assert(key_views(keys@)[a] != key_views(keys@)[i as int]);
                    }
                }
            }
            i += 1;
        }
        Ok(())
    }
}

/// Writing one flag at the key's own position realizes the map insertion.
proof fn lemma_pointwise_insert(
    before: &ControlPalette,
    after: &ControlPalette,
    k: Seq<char>,
    v: bool,
    i: int,
)
    requires
        before.wf(),
        after.keys@ == before.keys@,
        0 <= i < before.key_seq().len(),
        before.key_seq()[i] == k,
        key_at(before.key_seq(), k) == i,
        after.pressed@ == before.pressed@.update(i, v),
    ensures
        after@ == before@.insert(k, v),
{
    let kv = before.key_seq();
    assert forall|q: Seq<char>| #[trigger] after@.contains_key(q) == before@.insert(
        k,
        v,
    ).contains_key(q) by {
        if has_key(kv, q) {
        }
    }
    assert forall|q: Seq<char>| after@.contains_key(q) implies #[trigger] after@[q]
        == before@.insert(k, v)[q] by {
        let j = key_at(kv, q);
        assert(0 <= j < kv.len() && kv[j] == q);
        if q == k {
            assert(j == i);
        } else {
            assert(j != i);
        }
    }
    assert(after@ =~= before@.insert(k, v));
}

} // verus!
