//! Parameter schemas and the block that holds their values.
//!
//! An app declares its parameters once, as a list of [`ParamDef`]s; the position of a
//! definition in that list is the index the app reads its value by. Values live in a flat
//! [`ParamBlock`]: one 4-byte word per parameter, padded to a multiple of 16 bytes so it
//! can be uploaded straight into a uniform buffer.
//!
//! Every number a definition carries is held as the word the block would store for it:
//! an IEEE-754 single-precision bit pattern for a float parameter, the integer itself for
//! an int, toggle or choice. `min` and `max` are widened to `i64` so that a choice with
//! no options can still say that its range is empty (a maximum of −1).
use vstd::prelude::*;

verus! {

/// The storage class of a parameter. Every kind occupies exactly one word.
#[derive(Clone, Copy, Debug, PartialEq, Eq, Structural)]
pub enum ParamKind {
    /// A continuous value, rendered as a slider.
    Float,
    /// A whole number, rendered as a stepped slider.
    Int,
    /// An on/off value, rendered as a toggle.
    Toggle,
    /// A one-of-N choice, rendered as a select. See [`ParamDef::options`].
    Choice,
}

/// One declared parameter: how to store it, and how to draw a control for it.
#[derive(Clone, Copy, Debug)]
pub struct ParamDef {
    /// Stable identifier used by controls to bind to this parameter.
    pub name: &'static str,
    /// Human-readable label shown next to the control.
    pub label: &'static str,
    pub kind: ParamKind,
    /// The word stored for the default value.
    pub default: u32,
    /// The lower end of the range, in the kind's encoding.
    pub min: i64,
    /// The upper end of the range, in the kind's encoding.
    pub max: i64,
    /// Slider granularity, in the kind's encoding. `0` means "continuous".
    pub step: u32,
    /// Panel section this control is filed under.
    pub group: &'static str,
    /// Labels for [`ParamKind::Choice`], indexed by value. Empty for other kinds.
    pub options: &'static [&'static str],
    /// Whether this control is filed behind its group's disclosure rather than shown
    /// with the rest.
    pub advanced: bool,
}

/// The bit pattern of the single-precision float `1.0`.
pub const ONE_BITS: u32 = 0x3f80_0000;

/// The group a definition is filed under until it says otherwise.
pub open spec fn default_group() -> Seq<char> {
    seq!['G', 'e', 'n', 'e', 'r', 'a', 'l']
}

impl ParamDef {
    /// A continuous parameter. `default`, `min` and `max` are the bit patterns of the
    /// float values.
    pub fn float(name: &'static str, label: &'static str, default: u32, min: u32, max: u32) -> (r: Self)
        ensures
            r.name == name,
            r.label == label,
            r.kind == ParamKind::Float,
            r.default == default,
            r.min == min as i64,
            r.max == max as i64,
            r.step == 0,
            r.group@ == default_group(),
            r.options@.len() == 0,
            !r.advanced,
    {
        let r = Self {
            name,
            label,
            kind: ParamKind::Float,
            default,
            min: min as i64,
            max: max as i64,
            step: 0,
            group: "General",
            options: &[],
            advanced: false,
        };
        proof {
            reveal_strlit("General");
        }
        r
    }

    /// A whole-number parameter, stepping by one.
    pub fn integer(name: &'static str, label: &'static str, default: u32, min: u32, max: u32) -> (r: Self)
        ensures
            r.name == name,
            r.label == label,
            r.kind == ParamKind::Int,
            r.default == default,
            r.min == min as i64,
            r.max == max as i64,
            r.step == 1,
            r.group@ == default_group(),
            r.options@.len() == 0,
            !r.advanced,
    {
        let r = Self {
            name,
            label,
            kind: ParamKind::Int,
            default,
            min: min as i64,
            max: max as i64,
            step: 1,
            group: "General",
            options: &[],
            advanced: false,
        };
        proof {
            reveal_strlit("General");
        }
        r
    }

    /// An on/off parameter, stored as `1` or `0`.
    pub fn toggle(name: &'static str, label: &'static str, default: bool) -> (r: Self)
        ensures
            r.name == name,
            r.label == label,
            r.kind == ParamKind::Toggle,
            r.default == (if default { 1u32 } else { 0u32 }),
            r.min == 0,
            r.max == 1,
            r.step == 1,
            r.group@ == default_group(),
            r.options@.len() == 0,
            !r.advanced,
    {
        let r = Self {
            name,
            label,
            kind: ParamKind::Toggle,
            default: if default { 1 } else { 0 },
            min: 0,
            max: 1,
            step: 1,
            group: "General",
            options: &[],
            advanced: false,
        };
        proof {
            reveal_strlit("General");
        }
        r
    }

    /// A one-of-N parameter whose value indexes `options`.
    pub fn choice(
        name: &'static str,
        label: &'static str,
        default: u32,
        options: &'static [&'static str],
    ) -> (r: Self)
        requires
            options@.len() <= i64::MAX,
        ensures
            r.name == name,
            r.label == label,
            r.kind == ParamKind::Choice,
            r.default == default,
            r.min == 0,
            r.max == options@.len() - 1,
            r.step == 1,
            r.group@ == default_group(),
            r.options == options,
            !r.advanced,
    {
        let n = options.len();
        let r = Self {
            name,
            label,
            kind: ParamKind::Choice,
            default,
            min: 0,
            max: if n == 0 { -1 } else { (n - 1) as i64 },
            step: 1,
            group: "General",
            options,
            advanced: false,
        };
        proof {
            reveal_strlit("General");
        }
        r
    }

    /// File this control under a named panel section.
    pub fn group(self, group: &'static str) -> (r: Self)
        ensures
            r == (Self { group, ..self }),
    {
        let mut r = self;
        r.group = group;
        r
    }

    /// File this control behind its group's disclosure.
    pub fn advanced(self) -> (r: Self)
        ensures
            r == (Self { advanced: true, ..self }),
    {
        let mut r = self;
        r.advanced = true;
        r
    }

    /// Set slider granularity, in the kind's encoding.
    pub fn step(self, step: u32) -> (r: Self)
        ensures
            r == (Self { step, ..self }),
    {
        let mut r = self;
        r.step = step;
        r
    }

    /// The default encoded as the word that would be stored for it.
    pub fn default_word(&self) -> (r: u32)
        ensures
            r == self.default,
    {
        self.default
    }
}


/// `d` declares exactly this: every field of the definition, strings by their
/// characters and options by their list.
pub open spec fn declares(
    d: ParamDef,
    name: &str,
    label: &str,
    kind: ParamKind,
    default: u32,
    min: i64,
    max: i64,
    step: u32,
    group: &str,
    advanced: bool,
    options: Seq<&'static str>,
) -> bool {
    &&& d.name@ == name@
    &&& d.label@ == label@
    &&& d.kind == kind
    &&& d.default == default
    &&& d.min == min
    &&& d.max == max
    &&& d.step == step
    &&& d.group@ == group@
    &&& d.advanced == advanced
    &&& d.options@ =~= options
}

/// How many of the definitions from position `k` on are filed behind their group's
/// disclosure.
pub open spec fn advanced_from(s: Seq<ParamDef>, k: int) -> nat
    decreases s.len() - k,
{
    if k < 0 || k >= s.len() {
        0
    } else {
        (if s[k].advanced { 1nat } else { 0nat }) + advanced_from(s, k + 1)
    }
}

/// Whether every group some definition is filed under also has a definition shown
/// outside the disclosure.
pub open spec fn every_group_shows_one(s: Seq<ParamDef>) -> bool {
    forall|i: int|
        #![trigger s[i]]
        0 <= i < s.len() ==> exists|j: int|
            #![trigger s[j]]
            0 <= j < s.len() && !s[j].advanced && s[j].group@ == s[i].group@
}

/// How many words a block for `n` parameters holds: `n` rounded up to a multiple of
/// four, and never fewer than four, so the block always fills whole 16-byte rows.
pub open spec fn padded_len(n: nat) -> nat {
    if n == 0 {
        4
    } else if n % 4 == 0 {
        n
    } else {
        n + (4 - n % 4) as nat
    }
}

/// A block is padded as little as it can be: to the first multiple of four words at or
/// past the parameter count, and to one row of four for an empty schema.
pub proof fn lemma_padding_is_minimal(n: nat)
    ensures
        padded_len(n) % 4 == 0,
        padded_len(n) >= 4,
        n <= padded_len(n),
        n > 0 ==> padded_len(n) < n + 4,
        n == 0 ==> padded_len(n) == 4,
{
}

/// Byte `k` (0 = least significant) of a word.
pub open spec fn byte_of(w: u32, k: int) -> u8 {
    if k == 0 {
        (w % 0x100) as u8
    } else if k == 1 {
        ((w / 0x100) % 0x100) as u8
    } else if k == 2 {
        ((w / 0x1_0000) % 0x100) as u8
    } else {
        (w / 0x100_0000) as u8
    }
}

/// The words laid out little-endian, four bytes each.
pub open spec fn le_bytes(words: Seq<u32>) -> Seq<u8> {
    Seq::new(4 * words.len(), |j: int| byte_of(words[j / 4], j % 4))
}

/// The words laid out big-endian, four bytes each.
pub open spec fn be_bytes(words: Seq<u32>) -> Seq<u8> {
    Seq::new(4 * words.len(), |j: int| byte_of(words[j / 4], 3 - j % 4))
}

/// The little-endian word held in `bytes[4i .. 4i + 4]`.
pub open spec fn le_word(bytes: Seq<u8>, i: int) -> u32 {
    (bytes[4 * i] + 0x100 * bytes[4 * i + 1] + 0x1_0000 * bytes[4 * i + 2] + 0x100_0000 * bytes[4
        * i + 3]) as u32
}

/// How many whole words a mirror of `byte_count` bytes overwrites in a block of
/// `word_count` words: as many as it holds, and no more than the block has.
pub open spec fn words_written(byte_count: nat, word_count: nat) -> nat {
    if byte_count / 4 < word_count {
        byte_count / 4
    } else {
        word_count
    }
}

/// The block's words after a mirror of `bytes` is written over `words`.
pub open spec fn written(words: Seq<u32>, bytes: Seq<u8>) -> Seq<u32> {
    let n = words_written(bytes.len(), words.len());
    Seq::new(words.len(), |i: int| if i < n { le_word(bytes, i) } else { words[i] })
}

/// The words the block holds after `index` is set to `value`: out-of-range writes are
/// ignored.
pub open spec fn stored(words: Seq<u32>, index: int, value: u32) -> Seq<u32> {
    if 0 <= index < words.len() {
        words.update(index, value)
    } else {
        words
    }
}

/// The word at `index`, reading `0` past the end.
pub open spec fn word_at(words: Seq<u32>, index: int) -> u32 {
    if 0 <= index < words.len() {
        words[index]
    } else {
        0
    }
}

/// The live values for a schema: one word per parameter, padded for uniform upload.
#[derive(Clone, Debug)]
pub struct ParamBlock {
    words: Vec<u32>,
    len: usize,
}

impl View for ParamBlock {
    type V = Seq<u32>;

    /// Every word the block holds, padding included.
    closed spec fn view(&self) -> Seq<u32> {
        self.words@
    }
}

impl ParamBlock {
    /// The block's shape: padded to whole rows of four words, and small enough to count
    /// its bytes in a `usize`. Every block that [`ParamBlock::from_defaults`] makes has
    /// it, and every method keeps it.
    pub closed spec fn wf(&self) -> bool {
        &&& self.words@.len() == padded_len(self.len as nat)
        &&& 4 * self.words@.len() <= usize::MAX
    }

    /// The number of declared parameters, excluding padding.
    pub closed spec fn declared(&self) -> nat {
        self.len as nat
    }

    /// A block holding every parameter's declared default, followed by zero padding.
    pub fn from_defaults(schema: &[ParamDef]) -> (r: Self)
        requires
            4 * (schema@.len() + 4) <= usize::MAX,
        ensures
            r.wf(),
            r.declared() == schema@.len(),
            r@.len() == padded_len(schema@.len() as nat),
            forall|i: int| 0 <= i < schema@.len() ==> #[trigger] r@[i] == schema@[i].default,
            forall|i: int| schema@.len() <= i < r@.len() ==> #[trigger] r@[i] == 0,
    {
        let n = schema.len();
        let mut words: Vec<u32> = Vec::new();
        let mut i: usize = 0;
        while i < n
            invariant
                n == schema@.len(),
                i <= n,
                words@.len() == i,
                forall|j: int| 0 <= j < i ==> #[trigger] words@[j] == schema@[j].default,
            decreases n - i,
        {
            words.push(schema[i].default_word());
            i = i + 1;
        }
        while words.len() % 4 != 0 || words.len() == 0
            invariant
                n == schema@.len(),
                n <= words@.len() <= padded_len(n as nat),
                words@.len() == n || n % 4 != 0 || n == 0,
                forall|j: int| 0 <= j < n ==> #[trigger] words@[j] == schema@[j].default,
                forall|j: int| n <= j < words@.len() ==> #[trigger] words@[j] == 0,
            decreases padded_len(n as nat) - words@.len(),
        {
            words.push(0);
        }
        ParamBlock { words, len: n }
    }

    /// Number of declared parameters (excluding padding).
    pub fn len(&self) -> (r: usize)
        requires
            self.wf(),
        ensures
            r == self.declared(),
    {
        self.len
    }

    /// Whether the schema declared no parameters at all.
    pub fn is_empty(&self) -> (r: bool)
        requires
            self.wf(),
        ensures
            r == (self.declared() == 0),
    {
        self.len == 0
    }

    /// Padded size in bytes — what the interface mirror and the uniform buffer both use.
    pub fn byte_len(&self) -> (r: usize)
        requires
            self.wf(),
        ensures
            r == 4 * self@.len(),
            self@.len() == padded_len(self.declared()),
            self.declared() <= self@.len(),
            r % 16 == 0,
            r >= 16,
    {
        self.words.len() * 4
    }

    /// Every word, padding included.
    pub fn words(&self) -> (r: &[u32])
        requires
            self.wf(),
        ensures
            r@ == self@,
    {
        self.words.as_slice()
    }

    /// The words as the bytes a uniform buffer receives, in the machine's byte order.
    pub fn as_bytes(&self) -> (r: &[u8])
        requires
            self.wf(),
        ensures
            r@ == le_bytes(self@) || r@ == be_bytes(self@),
    {
        cast_words(self.words.as_slice())
    }

    /// Read an int, toggle or choice parameter by index constant; the raw word of a float
    /// parameter. Out-of-range indices read `0`.
    pub fn u32(&self, index: usize) -> (r: u32)
        requires
            self.wf(),
        ensures
            r == word_at(self@, index as int),
    {
        if index < self.words.len() {
            self.words[index]
        } else {
            0
        }
    }

    /// Write the word of a parameter by index constant. Out-of-range writes are ignored.
    pub fn set_u32(&mut self, index: usize, value: u32)
        requires
            old(self).wf(),
        ensures
            final(self)@ == stored(old(self)@, index as int, value),
            final(self).declared() == old(self).declared(),
            final(self).wf(),
    {
        if index < self.words.len() {
            self.words.set(index, value);
        }
    }

    /// Overwrite from a mirror sent by the interface: each whole little-endian word of
    /// `bytes` replaces the word at the same position. Short or long input is clamped
    /// rather than rejected, so an interface built against a stale schema degrades
    /// instead of dying.
    pub fn write_bytes(&mut self, bytes: &[u8])
        requires
            old(self).wf(),
        ensures
            final(self)@ == written(old(self)@, bytes@),
            final(self).declared() == old(self).declared(),
            final(self).wf(),
            final(self)@.len() == old(self)@.len(),
            forall|i: int|
                0 <= i < old(self)@.len() && 4 * i + 4 <= bytes@.len() ==> #[trigger] final(self)@[i]
                    as int == bytes@[4 * i] as int + 0x100 * bytes@[4 * i + 1] as int + 0x1_0000
                    * bytes@[4 * i + 2] as int + 0x100_0000 * bytes@[4 * i + 3] as int,
            forall|i: int|
                0 <= i < old(self)@.len() && 4 * i + 4 > bytes@.len() ==> #[trigger] final(self)@[i]
                    == old(self)@[i],
    {
        let count = self.words.len();
        let n = if bytes.len() / 4 < count {
            bytes.len() / 4
        } else {
            count
        };
        let ghost before = self@;
        assert(4 * n <= bytes@.len());
        let mut i: usize = 0;
        while i < n
            invariant
                n == words_written(bytes@.len(), before.len()),
                count == before.len(),
                self.words@.len() == count,
                self.len == old(self).len,
                i <= n,
                4 * n <= bytes@.len(),
                bytes@.len() == bytes.len(),
                forall|j: int| 0 <= j < i ==> #[trigger] self.words@[j] == le_word(bytes@, j),
                forall|j: int| i <= j < count ==> #[trigger] self.words@[j] == before[j],
            decreases n - i,
        {
            assert(4 * i + 3 < 4 * n);
            let w = bytes[4 * i] as u32 + 0x100 * (bytes[4 * i + 1] as u32) + 0x1_0000 * (bytes[4
                * i + 2] as u32) + 0x100_0000 * (bytes[4 * i + 3] as u32);
            self.words.set(i, w);
            i = i + 1;
        }
        assert(self.words@ =~= written(before, bytes@));
        proof {
            assert forall|i: int|
                0 <= i < before.len() && 4 * i + 4 <= bytes@.len() implies #[trigger] self.words@[i]
                    as int == bytes@[4 * i] as int + 0x100 * bytes@[4 * i + 1] as int + 0x1_0000
                    * bytes@[4 * i + 2] as int + 0x100_0000 * bytes@[4 * i + 3] as int by {
                lemma_mirror_words_land(before, bytes@, i);
            }
        }
    }
}

/// A read-only view of the parameter values, handed to apps each frame.
#[derive(Clone, Copy)]
pub struct Params<'a> {
    schema: &'a [ParamDef],
    words: &'a [u32],
}

impl<'a> Params<'a> {
    /// The schema the values belong to.
    pub closed spec fn spec_schema(&self) -> Seq<ParamDef> {
        self.schema@
    }

    /// The words the view reads.
    pub closed spec fn spec_words(&self) -> Seq<u32> {
        self.words@
    }

    pub fn new(schema: &'a [ParamDef], block: &'a ParamBlock) -> (r: Self)
        requires
            block.wf(),
        ensures
            r.spec_schema() == schema@,
            r.spec_words() == block@,
    {
        Params { schema, words: block.words() }
    }

    pub fn schema(&self) -> (r: &'a [ParamDef])
        ensures
            r@ == self.spec_schema(),
    {
        self.schema
    }

    /// Read an int or choice parameter by index constant. Out-of-range indices read `0`.
    pub fn integer(&self, index: usize) -> (r: u32)
        ensures
            r == word_at(self.spec_words(), index as int),
    {
        if index < self.words.len() {
            self.words[index]
        } else {
            0
        }
    }

    /// Read a toggle by index constant: on exactly when its word is not zero.
    pub fn toggle(&self, index: usize) -> (r: bool)
        ensures
            r == (word_at(self.spec_words(), index as int) != 0),
    {
        self.integer(index) != 0
    }
}

/// A word is the little-endian sum of its four bytes.
proof fn lemma_word_from_bytes(w: u32)
    ensures
        w == byte_of(w, 0) + 0x100 * byte_of(w, 1) + 0x1_0000 * byte_of(w, 2) + 0x100_0000
            * byte_of(w, 3),
{
    assert(w == w % 0x100 + 0x100 * ((w / 0x100) % 0x100) + 0x1_0000 * ((w / 0x1_0000) % 0x100)
        + 0x100_0000 * (w / 0x100_0000)) by (bit_vector);
    assert(w / 0x100_0000 < 0x100) by (bit_vector);
}

/// A mirror of the block, written back, changes nothing: every word lands at the offset
/// it was read from. This is what lets an interface ship the whole block every frame.
pub proof fn lemma_mirror_round_trip(words: Seq<u32>)
    ensures
        written(words, le_bytes(words)) == words,
{
    let bytes = le_bytes(words);
    assert forall|i: int| 0 <= i < words.len() implies le_word(bytes, i) == words[i] by {
        lemma_word_from_bytes(words[i]);
        assert(bytes[4 * i] == byte_of(words[i], 0));
        assert(bytes[4 * i + 1] == byte_of(words[i], 1));
        assert(bytes[4 * i + 2] == byte_of(words[i], 2));
        assert(bytes[4 * i + 3] == byte_of(words[i], 3));
    }
    assert(written(words, bytes) =~= words);
}

/// Every word a mirror holds whole lands in the block: word `i` becomes the
/// little-endian number in bytes `4i .. 4i + 4` whenever those bytes are there and the
/// block has a word `i`, however long the mirror and the block are; the block keeps its
/// length.
pub proof fn lemma_mirror_words_land(words: Seq<u32>, bytes: Seq<u8>, i: int)
    requires
        0 <= i < words.len(),
        4 * i + 4 <= bytes.len(),
    ensures
        written(words, bytes).len() == words.len(),
        written(words, bytes)[i] as int == bytes[4 * i] as int + 0x100 * bytes[4 * i + 1] as int
            + 0x1_0000 * bytes[4 * i + 2] as int + 0x100_0000 * bytes[4 * i + 3] as int,
{
    let (b0, b1, b2, b3) = (bytes[4 * i], bytes[4 * i + 1], bytes[4 * i + 2], bytes[4 * i + 3]);
    assert(b0 + 0x100 * b1 + 0x1_0000 * b2 + 0x100_0000 * b3 <= 0xffff_ffff);
}

/// A mirror shorter than the block overwrites only the words it holds whole; every word
/// past them keeps its value.
pub proof fn lemma_short_write_leaves_the_rest(words: Seq<u32>, bytes: Seq<u8>, i: int)
    requires
        bytes.len() / 4 <= i < words.len(),
    ensures
        written(words, bytes)[i] == words[i],
{
}

/// A value written at an index inside the block is the value read back there, and no
/// other word changes; a write past the end changes nothing and the index still reads 0.
pub proof fn lemma_read_after_write(words: Seq<u32>, index: int, value: u32, other: int)
    requires
        other != index,
    ensures
        0 <= index < words.len() ==> word_at(stored(words, index, value), index) == value,
        !(0 <= index < words.len()) ==> stored(words, index, value) == words && word_at(
            stored(words, index, value),
            index,
        ) == 0,
        word_at(stored(words, index, value), other) == word_at(words, other),
{
}

/// The words of a slice as bytes, in the machine's byte order.
///
/// Calls `bytemuck::cast_slice::<u32, u8>`, which reinterprets the memory of the slice:
/// a `u8` never needs more alignment than a `u32` and every byte count divides by one, so
/// the cast always succeeds and yields `4 * words.len()` bytes, each word in native byte
/// order. The contract says that order is little- or big-endian; which of the two it is
/// depends on the machine and is not stated.
#[verifier::external_body]
fn cast_words(words: &[u32]) -> (r: &[u8])
    ensures
        r@ == le_bytes(words@) || r@ == be_bytes(words@),
{
    bytemuck::cast_slice::<u32, u8>(words)
}

} // verus!
