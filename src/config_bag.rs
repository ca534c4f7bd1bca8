use vstd::prelude::*;

verus! {

/// The value a single layer holds for `key`: the most recent entry under that key.
pub open spec fn layer_lookup<V>(layer: Seq<(u64, V)>, key: u64) -> Option<V>
    decreases layer.len(),
{
    if layer.len() == 0 {
        None
    } else if layer.last().0 == key {
        Some(layer.last().1)
    } else {
        layer_lookup(layer.drop_last(), key)
    }
}

/// The value visible for `key`: the innermost layer that holds one wins.
pub open spec fn bag_lookup<V>(layers: Seq<Seq<(u64, V)>>, key: u64) -> Option<V>
    decreases layers.len(),
{
    if layers.len() == 0 {
        None
    } else {
        match layer_lookup(layers.last(), key) {
            Some(v) => Some(v),
            None => bag_lookup(layers.drop_last(), key),
        }
    }
}

/// The layers after writing `value` under `key` into the innermost one.
pub open spec fn bag_put<V>(layers: Seq<Seq<(u64, V)>>, key: u64, value: V) -> Seq<Seq<(u64, V)>>
    recommends
        layers.len() > 0,
{
    layers.update(layers.len() - 1, layers.last().push((key, value)))
}

/// The layers after a sequence of writes, applied in order.
pub open spec fn bag_put_all<V>(layers: Seq<Seq<(u64, V)>>, writes: Seq<(u64, V)>) -> Seq<
    Seq<(u64, V)>,
>
    decreases writes.len(),
{
    if writes.len() == 0 {
        layers
    } else {
        bag_put(bag_put_all(layers, writes.drop_last()), writes.last().0, writes.last().1)
    }
}

/// A layered store of values keyed by a type identity.
///
/// Reads search the layers from the innermost outwards; writes go to the innermost
/// layer; popping a layer restores what was visible before it was pushed.
pub struct ConfigBag<V> {
    layers: Vec<Vec<(u64, V)>>,
}

impl<V> View for ConfigBag<V> {
    type V = Seq<Seq<(u64, V)>>;

    closed spec fn view(&self) -> Seq<Seq<(u64, V)>> {
        Seq::new(self.layers@.len(), |i: int| self.layers@[i]@)
    }
}

proof fn lemma_layer_skip_suffix<V>(layer: Seq<(u64, V)>, j: int, key: u64)
    requires
        0 <= j <= layer.len(),
        forall|i: int| j <= i < layer.len() ==> layer[i].0 != key,
    ensures
        layer_lookup(layer.subrange(0, j), key) == layer_lookup(layer, key),
    decreases layer.len() - j,
{
    if j < layer.len() {
        lemma_layer_skip_suffix(layer, j + 1, key);
        let s = layer.subrange(0, j + 1);
        assert(s.drop_last() =~= layer.subrange(0, j));
    } else {
        assert(layer.subrange(0, j) =~= layer);
    }
}

proof fn lemma_bag_skip_outer<V>(layers: Seq<Seq<(u64, V)>>, j: int, key: u64)
    requires
        0 <= j <= layers.len(),
        forall|i: int| j <= i < layers.len() ==> layer_lookup(#[trigger] layers[i], key) is None,
    ensures
        bag_lookup(layers.subrange(0, j), key) == bag_lookup(layers, key),
    decreases layers.len() - j,
{
    if j < layers.len() {
        lemma_bag_skip_outer(layers, j + 1, key);
        let s = layers.subrange(0, j + 1);
        assert(s.drop_last() =~= layers.subrange(0, j));
    } else {
        assert(layers.subrange(0, j) =~= layers);
    }
}

proof fn lemma_bag_found_at<V>(layers: Seq<Seq<(u64, V)>>, j: int, key: u64)
    requires
        0 <= j < layers.len(),
        layer_lookup(layers[j], key) is Some,
        forall|i: int| j < i < layers.len() ==> layer_lookup(#[trigger] layers[i], key) is None,
    ensures
        bag_lookup(layers, key) == layer_lookup(layers[j], key),
{
    lemma_bag_skip_outer(layers, j + 1, key);
    let s = layers.subrange(0, j + 1);
    assert(s.drop_last() =~= layers.subrange(0, j));
}

proof fn lemma_writes_fill_new_layer<V>(layers: Seq<Seq<(u64, V)>>, writes: Seq<(u64, V)>)
    ensures
        bag_put_all(layers.push(Seq::empty()), writes) == layers.push(writes),
    decreases writes.len(),
{
    if writes.len() > 0 {
        lemma_writes_fill_new_layer(layers, writes.drop_last());
        assert(writes.drop_last().push(writes.last()) =~= writes);
        assert(bag_put_all(layers.push(Seq::empty()), writes) =~= layers.push(writes));
    } else {
        assert(writes =~= Seq::<(u64, V)>::empty());
    }
}

/// Scoped layers: whatever is written after pushing a layer is what `get` sees
/// (the latest write under a key wins, keys not written there show the outer
/// value or absence), and popping that layer restores the earlier layers exactly.
pub proof fn lemma_scoped_layer_round_trip<V>(
    layers: Seq<Seq<(u64, V)>>,
    writes: Seq<(u64, V)>,
    key: u64,
)
    ensures
        bag_put_all(layers.push(Seq::empty()), writes).drop_last() == layers,
        bag_lookup(bag_put_all(layers.push(Seq::empty()), writes), key) == match layer_lookup(
            writes,
            key,
        ) {
            Some(v) => Some(v),
            None => bag_lookup(layers, key),
        },
{
    lemma_writes_fill_new_layer(layers, writes);
    assert(layers.push(writes).drop_last() =~= layers);
}

impl<V> ConfigBag<V> {
    /// A bag with one empty layer.
    pub fn new() -> (r: Self)
        ensures
            r@ == seq![Seq::<(u64, V)>::empty()],
    {
        let mut layers: Vec<Vec<(u64, V)>> = Vec::new();
        layers.push(Vec::new());
        let r = ConfigBag { layers };
        assert(r@ =~= seq![Seq::<(u64, V)>::empty()]);
        r
    }

    /// The number of layers.
    pub fn depth(&self) -> (r: usize)
        ensures
            r == self@.len(),
    {
        self.layers.len()
    }

    /// Starts a new innermost scope.
    pub fn push_layer(&mut self)
        ensures
            final(self)@ == old(self)@.push(Seq::empty()),
    {
        self.layers.push(Vec::new());
        assert(final(self)@ =~= old(self)@.push(Seq::empty()));
    }

    /// Ends the innermost scope, discarding what was written in it.
    /// Returns false, and changes nothing, when there is no layer.
    pub fn pop_layer(&mut self) -> (r: bool)
        ensures
            r == (old(self)@.len() > 0),
            r ==> final(self)@ == old(self)@.drop_last(),
            !r ==> final(self)@ == old(self)@,
    {
        if self.layers.len() == 0 {
            return false;
        }
        let _ = self.layers.pop();
        assert(final(self)@ =~= old(self)@.drop_last());
        true
    }

    /// Writes `value` under `key` in the innermost layer.
    pub fn put(&mut self, key: u64, value: V)
        requires
            old(self)@.len() > 0,
        ensures
            final(self)@ == bag_put(old(self)@, key, value),
            bag_lookup(final(self)@, key) == Some(value),
            forall|other: u64|
                other != key ==> bag_lookup(final(self)@, other) == bag_lookup(old(self)@, other),
    {
        let last = self.layers.len() - 1;
        let mut layer = Vec::new();
        std::mem::swap(&mut layer, &mut self.layers[last]);
        layer.push((key, value));
        self.layers.set(last, layer);
        assert(final(self)@ =~= bag_put(old(self)@, key, value));
        proof {
            let l = old(self)@;
            assert(bag_put(l, key, value).drop_last() =~= l.drop_last());
            assert(bag_put(l, key, value).last().drop_last() =~= l.last());
        }
    }

    /// The value visible under `key`, if any.
    pub fn get(&self, key: u64) -> (r: Option<&V>)
        ensures
            match r {
                Some(v) => bag_lookup(self@, key) == Some(*v),
                None => bag_lookup(self@, key) is None,
            },
    {
        let mut j: usize = self.layers.len();
        while j > 0
            invariant
                j <= self.layers@.len(),
                forall|i: int|
                    j <= i < self@.len() ==> layer_lookup(#[trigger] self@[i], key) is None,
            decreases j,
        {
            let layer = &self.layers[j - 1];
            assert(layer@ == self@[j - 1]);
            let mut k: usize = layer.len();
            while k > 0
                invariant
                    0 < j <= self.layers@.len(),
                    layer@ == self@[j - 1],
                    forall|i: int|
                        j <= i < self@.len() ==> layer_lookup(#[trigger] self@[i], key) is None,
                    k <= layer@.len(),
                    forall|i: int| k <= i < layer@.len() ==> layer@[i].0 != key,
                decreases k,
            {
                if layer[k - 1].0 == key {
                    proof {
                        lemma_layer_skip_suffix(layer@, k as int, key);
                        let s = layer@.subrange(0, k as int);
                        assert(s.last() == layer@[k - 1]);
                        assert(self@[j - 1] == layer@);
                        lemma_bag_found_at(self@, j - 1, key);
                    }
                    return Some(&layer[k - 1].1);
                }
                k = k - 1;
            }
            proof {
                lemma_layer_skip_suffix(layer@, 0, key);
                assert(layer@.subrange(0, 0) =~= Seq::<(u64, V)>::empty());
                assert(self@[j - 1] == layer@);
            }
            j = j - 1;
        }
        proof {
            lemma_bag_skip_outer(self@, 0, key);
            assert(self@.subrange(0, 0) =~= Seq::<Seq<(u64, V)>>::empty());
        }
        None
    }
}

} // verus!
