use vstd::prelude::*;

use rand::seq::SliceRandom;

verus! {

/// The identity table over all byte values: 0, 1, ..., 255.
pub open spec fn identity_bytes() -> Seq<u8> {
    Seq::new(256, |i: int| i as u8)
}

/// Relies on rand's `SliceRandom::shuffle`: a Fisher-Yates shuffle reorders
/// the slice in place by swaps, so whatever order chance picks, the result
/// holds exactly the contents that went in.
#[verifier::external_body]
fn shuffle_bytes(v: &mut Vec<u8>)
    ensures
        final(v)@.len() == old(v)@.len(),
        final(v)@.to_multiset() == old(v)@.to_multiset(),
{
    v.shuffle(&mut rand::thread_rng());
}

/// A fresh random permutation table: the identity over 0..=255, shuffled.
pub fn generate_perm() -> (r: Vec<u8>)
    ensures
        r@.len() == 256,
        r@.to_multiset() == identity_bytes().to_multiset(),
{
    let mut table: Vec<u8> = Vec::new();
    let mut i: usize = 0;
    while i < 256
        invariant
            i <= 256,
            table@.len() == i,
            forall|k: int| 0 <= k < i ==> #[trigger] table@[k] == k as u8,
        decreases 256 - i,
    {
        table.push(i as u8);
        i = i + 1;
    }
    proof {
        assert(table@ =~= identity_bytes());
    }
    shuffle_bytes(&mut table);
    table
}

/// The integer skeleton of Ken Perlin's gradient noise: one shuffled
/// permutation table per axis. Hashing a lattice corner folds each
/// coordinate to a byte, looks it up in that axis's table and XORs the
/// three bytes; the byte that comes out selects one of the 256 gradient
/// vectors, so the selection can never leave their table.
pub struct Perlin {
    perm_x: Vec<u8>,
    perm_y: Vec<u8>,
    perm_z: Vec<u8>,
}

impl Perlin {
    /// The permutation table used for the x coordinate.
    pub closed spec fn perm_x_spec(&self) -> Seq<u8> {
        self.perm_x@
    }

    /// The permutation table used for the y coordinate.
    pub closed spec fn perm_y_spec(&self) -> Seq<u8> {
        self.perm_y@
    }

    /// The permutation table used for the z coordinate.
    pub closed spec fn perm_z_spec(&self) -> Seq<u8> {
        self.perm_z@
    }

    /// Each table has one entry per byte value and holds every byte value
    /// exactly once.
    pub closed spec fn wf(&self) -> bool {
        &&& self.perm_x@.len() == 256 && self.perm_x@.to_multiset()
            == identity_bytes().to_multiset()
        &&& self.perm_y@.len() == 256 && self.perm_y@.to_multiset()
            == identity_bytes().to_multiset()
        &&& self.perm_z@.len() == 256 && self.perm_z@.to_multiset()
            == identity_bytes().to_multiset()
    }

    /// Draws the three permutation tables.
    pub fn new() -> (r: Self)
        ensures
            r.wf(),
    {
        Perlin { perm_x: generate_perm(), perm_y: generate_perm(), perm_z: generate_perm() }
    }

    /// Hashes one lattice corner `(x, y, z)` to the index of its gradient
    /// vector. Each coordinate is folded to its low byte, as the noise
    /// lattice repeats every 256 cells.
    pub fn corner_hash(&self, x: i64, y: i64, z: i64) -> (r: u8)
        requires
            self.wf(),
        ensures
            r == (self.perm_x_spec()[(x & 0xff) as int] ^ self.perm_y_spec()[(y & 0xff) as int]
                ^ self.perm_z_spec()[(z & 0xff) as int]),
    {
        proof {
            assert(0 <= (x & 0xff) < 256) by (bit_vector);
            assert(0 <= (y & 0xff) < 256) by (bit_vector);
            assert(0 <= (z & 0xff) < 256) by (bit_vector);
        }
        let mx: usize = (x & 0xff) as usize;
        let my: usize = (y & 0xff) as usize;
        let mz: usize = (z & 0xff) as usize;
        self.perm_x[mx] ^ self.perm_y[my] ^ self.perm_z[mz]
    }
}

} // verus!
