//! The material as the fragment stage reads it: a uniform block of 32-bit
//! words in the std140 layout.

use vstd::prelude::*;
use crate::material::AtmosphereMat;
use crate::scalar::Scalar;
use crate::transform::Vec3;

verus! {

/// The words that a vector starts at a multiple of.
pub const VECTOR_ALIGNMENT: usize = 4;

/// The words that a uniform block's length is a multiple of.
pub const BLOCK_ALIGNMENT: usize = 4;

/// The length in words of the material's uniform block.
pub const UNIFORM_WORDS: usize = 20;

/// A member of a uniform block.
#[derive(Clone, Copy, Debug, PartialEq, Eq, Structural)]
pub enum UniformMember {
    /// One number: one word, at any word.
    Number(Scalar),
    /// Three numbers: three words, at a multiple of four words.
    Vector(Vec3),
}

impl UniformMember {
    /// The words that the member starts at a multiple of.
    pub open spec fn alignment(self) -> nat {
        match self {
            UniformMember::Number(_) => 1,
            UniformMember::Vector(_) => VECTOR_ALIGNMENT as nat,
        }
    }

    /// The member's own words.
    pub open spec fn words(self) -> Seq<u32> {
        match self {
            UniformMember::Number(s) => seq![s.bits],
            UniformMember::Vector(v) => seq![v.x.bits, v.y.bits, v.z.bits],
        }
    }
}

/// How many words are to be skipped after `len` words to come to a
/// multiple of `alignment`.
pub open spec fn padding(len: nat, alignment: nat) -> nat
    recommends
        alignment > 0,
{
    if len % alignment == 0 {
        0
    } else {
        (alignment - len % alignment) as nat
    }
}

/// `n` words of padding. Padding is zero.
pub open spec fn zeros(n: nat) -> Seq<u32> {
    Seq::new(n, |i: int| 0u32)
}

/// The members laid out one after the other, each after as little padding
/// as brings it to a multiple of its alignment.
pub open spec fn packed(members: Seq<UniformMember>) -> Seq<u32>
    decreases members.len(),
{
    if members.len() == 0 {
        Seq::empty()
    } else {
        let before = packed(members.drop_last());
        before + zeros(padding(before.len(), members.last().alignment())) + members.last().words()
    }
}

/// The word at which member `i` starts.
pub open spec fn offset(members: Seq<UniformMember>, i: int) -> nat
    recommends
        0 <= i < members.len(),
{
    let before = packed(members.take(i)).len();
    before + padding(before, members[i].alignment())
}

/// The uniform block of the members: the members laid out, and padding up
/// to a multiple of the block alignment.
pub open spec fn block(members: Seq<UniformMember>) -> Seq<u32> {
    let laid_out = packed(members);
    laid_out + zeros(padding(laid_out.len(), BLOCK_ALIGNMENT as nat))
}

impl AtmosphereMat {
    /// The members of the material's uniform block, in the order in which
    /// the fragment stage declares them.
    pub open spec fn members(self) -> Seq<UniformMember> {
        seq![
            UniformMember::Vector(self.ray_origin),
            UniformMember::Vector(self.sun_position),
            UniformMember::Number(self.sun_intensity),
            UniformMember::Number(self.planet_radius),
            UniformMember::Number(self.atmosphere_radius),
            UniformMember::Vector(self.rayleigh_coefficient),
            UniformMember::Number(self.rayleigh_scale_height),
            UniformMember::Number(self.mie_coefficient),
            UniformMember::Number(self.mie_scale_height),
            UniformMember::Number(self.mie_direction),
        ]
    }

    /// The material's uniform block, word for word.
    pub open spec fn uniform_words(self) -> Seq<u32> {
        seq![
            self.ray_origin.x.bits,
            self.ray_origin.y.bits,
            self.ray_origin.z.bits,
            0u32,
            self.sun_position.x.bits,
            self.sun_position.y.bits,
            self.sun_position.z.bits,
            self.sun_intensity.bits,
            self.planet_radius.bits,
            self.atmosphere_radius.bits,
            0u32,
            0u32,
            self.rayleigh_coefficient.x.bits,
            self.rayleigh_coefficient.y.bits,
            self.rayleigh_coefficient.z.bits,
            self.rayleigh_scale_height.bits,
            self.mie_coefficient.bits,
            self.mie_scale_height.bits,
            self.mie_direction.bits,
            0u32,
        ]
    }

    /// The members of the material's uniform block.
    pub fn uniform_members(&self) -> (members: Vec<UniformMember>)
        ensures
            members@ == self.members(),
    {
        let mut members: Vec<UniformMember> = Vec::new();
        members.push(UniformMember::Vector(self.ray_origin));
        members.push(UniformMember::Vector(self.sun_position));
        members.push(UniformMember::Number(self.sun_intensity));
        members.push(UniformMember::Number(self.planet_radius));
        members.push(UniformMember::Number(self.atmosphere_radius));
        members.push(UniformMember::Vector(self.rayleigh_coefficient));
        members.push(UniformMember::Number(self.rayleigh_scale_height));
        members.push(UniformMember::Number(self.mie_coefficient));
        members.push(UniformMember::Number(self.mie_scale_height));
        members.push(UniformMember::Number(self.mie_direction));
        assert(members@ =~= self.members());
        members
    }

    /// The material as the fragment stage reads it.
    pub fn uniform(&self) -> (words: Vec<u32>)
        ensures
            words@ == self.uniform_words(),
            words@ == block(self.members()),
            words@.len() == UNIFORM_WORDS,
    {
        proof {
            lemma_material_block(*self);
        }
        let members = self.uniform_members();
        pack(&members)
    }
}

/// Appends padding to `words` up to a multiple of `alignment`.
fn pad(words: &mut Vec<u32>, alignment: usize)
    requires
        alignment > 0,
    ensures
        final(words)@ == old(words)@ + zeros(padding(old(words)@.len(), alignment as nat)),
{
    let rest = words.len() % alignment;
    let count = if rest == 0 {
        0
    } else {
        alignment - rest
    };
    let mut i: usize = 0;
    while i < count
        invariant
            i <= count,
            words@ == old(words)@ + zeros(i as nat),
        decreases count - i,
    {
        words.push(0);
        i += 1;
        assert(words@ =~= old(words)@ + zeros(i as nat));
    }
}

/// Lays the members out as a uniform block.
pub fn pack(members: &Vec<UniformMember>) -> (words: Vec<u32>)
    ensures
        words@ == block(members@),
{
    let mut words: Vec<u32> = Vec::new();
    let mut i: usize = 0;
    while i < members.len()
        invariant
            i <= members.len(),
            words@ == packed(members@.take(i as int)),
        decreases members.len() - i,
    {
        let ghost before = words@;
        proof {
            let next = members@.take(i as int + 1);
            assert(next.drop_last() == members@.take(i as int));
            assert(next.last() == members@[i as int]);
        }
        match members[i] {
            UniformMember::Number(s) => {
                pad(&mut words, 1);
                words.push(s.to_bits());
            },
            UniformMember::Vector(v) => {
                pad(&mut words, VECTOR_ALIGNMENT);
                words.push(v.x.to_bits());
                words.push(v.y.to_bits());
                words.push(v.z.to_bits());
            },
        }
        i += 1;
        assert(words@ =~= before + zeros(
            padding(before.len(), members@[i as int - 1].alignment()),
        ) + members@[i as int - 1].words());
    }
    proof {
        assert(members@.take(i as int) == members@);
    }
    pad(&mut words, BLOCK_ALIGNMENT);
    words
}

/// One step of holding a layout against the words `after`: if the first
/// `n` members are laid out as the first `start` words, and behind them
/// `after` holds the padding that member `n` needs and then its words, the
/// first `n + 1` members are laid out as `after` up to there.
proof fn lemma_packed_step(
    members: Seq<UniformMember>,
    n: int,
    start: nat,
    skipped: nat,
    after: Seq<u32>,
)
    requires
        0 <= n < members.len(),
        packed(members.take(n)) == after.take(start as int),
        start + skipped + members[n].words().len() <= after.len(),
        padding(start, members[n].alignment()) == skipped,
        forall|i: int| start <= i < start + skipped ==> after[i] == 0,
        forall|j: int|
            0 <= j < members[n].words().len() ==> after[start + skipped + j]
                == members[n].words()[j],
    ensures
        packed(members.take(n + 1)) == after.take(
            (start + skipped + members[n].words().len()) as int,
        ),
{
    assert(members.take(n + 1).drop_last() == members.take(n));
    assert(members.take(n + 1).last() == members[n]);
    assert(packed(members.take(n + 1)) =~= after.take(
        (start + skipped + members[n].words().len()) as int,
    ));
}

/// The uniform block of a material, laid out by the rules, is the twenty
/// words that the fragment stage declares.
pub proof fn lemma_material_block(m: AtmosphereMat)
    ensures
        block(m.members()) == m.uniform_words(),
        m.uniform_words().len() == UNIFORM_WORDS,
{
    let members = m.members();
    let words = m.uniform_words();
    assert(packed(members.take(0)) =~= words.take(0));
    lemma_packed_step(members, 0, 0, 0, words);
    assert(members[1].alignment() == 4 && padding(3, 4) == 1);
    lemma_packed_step(members, 1, 3, 1, words);
    lemma_packed_step(members, 2, 7, 0, words);
    lemma_packed_step(members, 3, 8, 0, words);
    lemma_packed_step(members, 4, 9, 0, words);
    assert(members[5].alignment() == 4 && padding(10, 4) == 2);
    lemma_packed_step(members, 5, 10, 2, words);
    lemma_packed_step(members, 6, 15, 0, words);
    lemma_packed_step(members, 7, 16, 0, words);
    lemma_packed_step(members, 8, 17, 0, words);
    lemma_packed_step(members, 9, 18, 0, words);
    assert(members.take(10) == members);
    assert(packed(members) == words.take(19));
    assert(padding(19, 4) == 1);
    assert(block(members) =~= words);
}

/// After its padding a layout has come to a multiple of the alignment, and
/// the padding is shorter than the alignment.
pub proof fn lemma_padding_aligns(len: nat, alignment: nat)
    requires
        alignment > 0,
    ensures
        (len + padding(len, alignment)) % alignment == 0,
        padding(len, alignment) < alignment,
{
    let rest = len % alignment;
    assert(rest < alignment && (rest != 0 ==> (len + (alignment - rest)) % (alignment as int) == 0))
        by (nonlinear_arith)
        requires
            alignment > 0,
            rest == len % alignment,
    ;
}

/// A layout only grows: the layout of the first `i` members is the start
/// of the layout of the first `j`, for `i` up to `j`.
pub proof fn lemma_packed_prefix(members: Seq<UniformMember>, i: int, j: int)
    requires
        0 <= i <= j <= members.len(),
    ensures
        packed(members.take(i)).len() <= packed(members.take(j)).len(),
        packed(members.take(j)).take(packed(members.take(i)).len() as int) == packed(
            members.take(i),
        ),
    decreases j - i,
{
    if i < j {
        lemma_packed_prefix(members, i, j - 1);
        assert(members.take(j).drop_last() == members.take(j - 1));
        assert(packed(members.take(j)).take(packed(members.take(i)).len() as int) =~= packed(
            members.take(i),
        ));
    } else {
        assert(packed(members.take(j)).take(packed(members.take(i)).len() as int) =~= packed(
            members.take(i),
        ));
    }
}

/// In a uniform block every member starts at a multiple of its alignment,
/// behind the members before it, and holds its own words there; and the
/// length of the block is a multiple of the block alignment.
pub proof fn lemma_block_layout(members: Seq<UniformMember>, i: int)
    requires
        0 <= i < members.len(),
    ensures
        offset(members, i) % members[i].alignment() == 0,
        packed(members.take(i)).len() <= offset(members, i),
        offset(members, i) + members[i].words().len() <= block(members).len(),
        block(members).subrange(
            offset(members, i) as int,
            (offset(members, i) + members[i].words().len()) as int,
        ) == members[i].words(),
        block(members).len() % (BLOCK_ALIGNMENT as nat) == 0,
{
    let before = packed(members.take(i));
    let through = packed(members.take(i + 1));
    lemma_padding_aligns(before.len(), members[i].alignment());
    lemma_padding_aligns(packed(members).len(), BLOCK_ALIGNMENT as nat);
    assert(members.take(i + 1).drop_last() == members.take(i));
    assert(members.take(i + 1).last() == members[i]);
    assert(through.subrange(
        offset(members, i) as int,
        (offset(members, i) + members[i].words().len()) as int,
    ) =~= members[i].words());
    lemma_packed_prefix(members, i + 1, members.len() as int);
    assert(members.take(members.len() as int) == members);
    assert(block(members).subrange(
        offset(members, i) as int,
        (offset(members, i) + members[i].words().len()) as int,
    ) =~= members[i].words());
}

/// The uniform block loses nothing: two materials with the same block are
/// the same material.
pub proof fn lemma_uniform_words_tell_materials_apart(a: AtmosphereMat, b: AtmosphereMat)
    requires
        a.uniform_words() == b.uniform_words(),
    ensures
        a == b,
{
    let (s, t) = (a.uniform_words(), b.uniform_words());
    assert(s[0] == t[0] && s[1] == t[1] && s[2] == t[2]);
    assert(s[4] == t[4] && s[5] == t[5] && s[6] == t[6] && s[7] == t[7]);
    assert(s[8] == t[8] && s[9] == t[9]);
    assert(s[12] == t[12] && s[13] == t[13] && s[14] == t[14] && s[15] == t[15]);
    assert(s[16] == t[16] && s[17] == t[17] && s[18] == t[18]);
}

} // verus!
