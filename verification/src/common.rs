//! Class identity: the 128-bit identifier type with its stable byte-order
//! transform to the foreign binary layout, and the class metadata record a
//! factory publishes for each instantiable class.

use vstd::prelude::*;

verus! {

/// A class may be instantiated any number of times.
pub const MANY_INSTANCES: u32 = 0x7FFFFFFF;

/// The big-endian bytes of one identifier word.
pub open spec fn be_bytes_of_word(w: u32) -> Seq<u8> {
    seq![
        ((w >> 24) & 0xff) as u8,
        ((w >> 16) & 0xff) as u8,
        ((w >> 8) & 0xff) as u8,
        (w & 0xff) as u8,
    ]
}

/// The identifier word four big-endian bytes stand for.
pub open spec fn word_of_be_bytes(s: Seq<u8>) -> u32
    recommends
        s.len() == 4,
{
    ((s[0] as u32) << 24) | ((s[1] as u32) << 16) | ((s[2] as u32) << 8) | (s[3] as u32)
}

pub proof fn lemma_word_be_round_trip(w: u32)
    ensures
        word_of_be_bytes(be_bytes_of_word(w)) == w,
{
    assert((((((w >> 24) & 0xff) as u8) as u32) << 24) | (((((w >> 16) & 0xff) as u8) as u32)
        << 16) | (((((w >> 8) & 0xff) as u8) as u32) << 8) | (((w & 0xff) as u8) as u32) == w)
        by (bit_vector);
}

/// A 128-bit class or interface identifier: four 32-bit words, packed
/// big-endian word by word into the foreign 16-byte layout.
#[derive(Clone, Copy, Debug, PartialEq, Eq, Structural)]
pub struct UID {
    pub w0: u32,
    pub w1: u32,
    pub w2: u32,
    pub w3: u32,
}

impl UID {
    pub fn new(uid: [u32; 4]) -> (r: Self)
        ensures
            r.w0 == uid[0],
            r.w1 == uid[1],
            r.w2 == uid[2],
            r.w3 == uid[3],
    {
        UID { w0: uid[0], w1: uid[1], w2: uid[2], w3: uid[3] }
    }

    /// The foreign 16-byte layout of this identifier: each word in
    /// big-endian order, words in declaration order.
    pub open spec fn foreign_bytes_spec(self) -> Seq<u8> {
        be_bytes_of_word(self.w0) + be_bytes_of_word(self.w1) + be_bytes_of_word(self.w2)
            + be_bytes_of_word(self.w3)
    }

    pub open spec fn from_foreign_bytes_spec(s: Seq<u8>) -> UID
        recommends
            s.len() == 16,
    {
        UID {
            w0: word_of_be_bytes(s.subrange(0, 4)),
            w1: word_of_be_bytes(s.subrange(4, 8)),
            w2: word_of_be_bytes(s.subrange(8, 12)),
            w3: word_of_be_bytes(s.subrange(12, 16)),
        }
    }

    /// Packs this identifier into its foreign 16-byte layout.
    pub fn to_foreign_bytes(&self) -> (r: Vec<u8>)
        ensures
            r@ == self.foreign_bytes_spec(),
    {
        let mut v: Vec<u8> = Vec::new();
        push_word_be(&mut v, self.w0);
        push_word_be(&mut v, self.w1);
        push_word_be(&mut v, self.w2);
        push_word_be(&mut v, self.w3);
        proof {
            assert(v@ =~= self.foreign_bytes_spec());
        }
        v
    }

    /// Reads an identifier back from its foreign 16-byte layout; anything
    /// but exactly 16 bytes is rejected.
    pub fn from_foreign_bytes(bytes: &[u8]) -> (r: Option<UID>)
        ensures
            bytes@.len() == 16 ==> r == Some(UID::from_foreign_bytes_spec(bytes@)),
            bytes@.len() != 16 ==> r is None,
    {
        if bytes.len() != 16 {
            return None;
        }
        let w0 = read_word_be(bytes, 0);
        let w1 = read_word_be(bytes, 4);
        let w2 = read_word_be(bytes, 8);
        let w3 = read_word_be(bytes, 12);
        Some(UID { w0, w1, w2, w3 })
    }

    /// The same identifier with its last word one higher, wrapping at the
    /// word's top value.
    pub fn auto_inc(self) -> (r: Self)
        ensures
            r.w0 == self.w0,
            r.w1 == self.w1,
            r.w2 == self.w2,
            self.w3 == u32::MAX ==> r.w3 == 0,
            self.w3 != u32::MAX ==> r.w3 == self.w3 + 1,
    {
        let mut out = self;
        if out.w3 == u32::MAX {
            out.w3 = 0;
        } else {
            out.w3 = out.w3 + 1;
        }
        out
    }

    /// The same identifier with its last word one lower, wrapping at zero.
    pub fn auto_dec(self) -> (r: Self)
        ensures
            r.w0 == self.w0,
            r.w1 == self.w1,
            r.w2 == self.w2,
            self.w3 == 0 ==> r.w3 == u32::MAX,
            self.w3 != 0 ==> r.w3 == self.w3 - 1,
    {
        let mut out = self;
        if out.w3 == 0 {
            out.w3 = u32::MAX;
        } else {
            out.w3 = out.w3 - 1;
        }
        out
    }
}

/// Law: packing an identifier into the foreign byte layout and reading it
/// back yields the identifier, for every identifier.
pub proof fn lemma_uid_foreign_round_trip(u: UID)
    ensures
        UID::from_foreign_bytes_spec(u.foreign_bytes_spec()) == u,
{
    lemma_word_be_round_trip(u.w0);
    lemma_word_be_round_trip(u.w1);
    lemma_word_be_round_trip(u.w2);
    lemma_word_be_round_trip(u.w3);
    let s = u.foreign_bytes_spec();
    assert(s.subrange(0, 4) =~= be_bytes_of_word(u.w0));
    assert(s.subrange(4, 8) =~= be_bytes_of_word(u.w1));
    assert(s.subrange(8, 12) =~= be_bytes_of_word(u.w2));
    assert(s.subrange(12, 16) =~= be_bytes_of_word(u.w3));
}

fn push_word_be(v: &mut Vec<u8>, w: u32)
    ensures
        final(v)@ == old(v)@ + be_bytes_of_word(w),
{
    proof {
        assert((w >> 24) & 0xff < 256 && (w >> 16) & 0xff < 256 && (w >> 8) & 0xff < 256 && (w
            & 0xff) < 256) by (bit_vector);
    }
    v.push(((w >> 24) & 0xff) as u8);
    v.push(((w >> 16) & 0xff) as u8);
    v.push(((w >> 8) & 0xff) as u8);
    v.push((w & 0xff) as u8);
    proof {
        assert(v@ =~= old(v)@ + be_bytes_of_word(w));
    }
}

fn read_word_be(b: &[u8], off: usize) -> (w: u32)
    requires
        off + 4 <= b@.len(),
    ensures
        w == word_of_be_bytes(b@.subrange(off as int, off as int + 4)),
{
    let b0 = b[off] as u32;
    let b1 = b[off + 1] as u32;
    let b2 = b[off + 2] as u32;
    let b3 = b[off + 3] as u32;
    proof {
        assert(b0 < 256 && b1 < 256 && b2 < 256 && b3 < 256);
        assert((b0 << 24) <= 0xff000000 && (b1 << 16) <= 0xff0000 && (b2 << 8) <= 0xff00)
            by (bit_vector)
            requires
                b0 < 256 && b1 < 256 && b2 < 256,
        ;
    }
    (b0 << 24) | (b1 << 16) | (b2 << 8) | b3
}

/// The category an instantiable class belongs to.
#[derive(Clone, Copy, Debug, PartialEq, Eq, Structural)]
pub enum Category {
    AudioEffect,
    ComponentController,
}

/// The fixed category string of each class category.
pub open spec fn category_chars(c: Category) -> Seq<char> {
    match c {
        Category::AudioEffect => "Audio Module Class"@,
        Category::ComponentController => "Component Controller Class"@,
    }
}

impl Category {
    /// The fixed category string the foreign protocol expects.
    pub fn as_str(&self) -> (r: &'static str)
        ensures
            r@ == category_chars(*self),
    {
        match self {
            Category::AudioEffect => "Audio Module Class",
            Category::ComponentController => "Component Controller Class",
        }
    }
}

/// The effect subcategory tag of a class.
#[derive(Clone, Copy, Debug, PartialEq, Eq, Structural)]
pub enum FxSubcategory {
    NoSubcategory,
    Fx,
}

/// The fixed subcategory tag of each effect subcategory.
pub open spec fn subcategory_chars(c: FxSubcategory) -> Seq<char> {
    match c {
        FxSubcategory::NoSubcategory => ""@,
        FxSubcategory::Fx => "Fx"@,
    }
}

impl FxSubcategory {
    /// The fixed subcategory string the foreign protocol expects.
    pub fn as_str(&self) -> (r: &'static str)
        ensures
            r@ == subcategory_chars(*self),
    {
        match self {
            FxSubcategory::NoSubcategory => "",
            FxSubcategory::Fx => "Fx",
        }
    }
}

/// Describes one instantiable class: identity, cardinality, category, and
/// display strings.  Built once via `ClassInfoBuilder` and held for the
/// lifetime of the factory.
pub struct ClassInfo {
    pub cid: UID,
    pub cardinality: u32,
    pub category: Category,
    pub name: String,
    pub class_flags: u32,
    pub subcategories: FxSubcategory,
    pub vendor: String,
    pub version: String,
    pub sdk_version: String,
}

impl ClassInfo {
    /// The identifier of the class this record describes.
    pub fn get_cid(&self) -> (r: &UID)
        ensures
            *r == self.cid,
    {
        &self.cid
    }
}

/// Builds a `ClassInfo`, starting from the defaults every field falls back
/// to when its setter is not called.
pub struct ClassInfoBuilder {
    pub cid: UID,
    pub cardinality: u32,
    pub category: Category,
    pub name: String,
    pub class_flags: u32,
    pub subcategories: FxSubcategory,
    pub vendor: String,
    pub version: String,
    pub sdk_version: String,
}

impl ClassInfoBuilder {
    pub fn new(cid: UID) -> (r: ClassInfoBuilder)
        ensures
            r.cid == cid,
            r.name@ == "VST3"@,
            r.cardinality == MANY_INSTANCES,
            r.category == Category::AudioEffect,
            r.class_flags == 0,
            r.subcategories == FxSubcategory::NoSubcategory,
            r.vendor@ == ""@,
            r.version@ == "0.1.0"@,
            r.sdk_version@ == "VST 3.6.14"@,
    {
        ClassInfoBuilder {
            cid,
            name: "VST3".to_string(),
            cardinality: MANY_INSTANCES,
            category: Category::AudioEffect,
            class_flags: 0,
            subcategories: FxSubcategory::NoSubcategory,
            vendor: "".to_string(),
            version: "0.1.0".to_string(),
            sdk_version: "VST 3.6.14".to_string(),
        }
    }

    pub fn name(self, name: &str) -> (r: ClassInfoBuilder)
        ensures
            r.name@ == name@,
            r.cid == self.cid,
            r.cardinality == self.cardinality,
            r.category == self.category,
            r.class_flags == self.class_flags,
            r.subcategories == self.subcategories,
            r.vendor == self.vendor,
            r.version == self.version,
            r.sdk_version == self.sdk_version,
    {
        ClassInfoBuilder { name: name.to_string(), ..self }
    }

    pub fn cardinality(self, cardinality: u32) -> (r: ClassInfoBuilder)
        ensures
            r.cardinality == cardinality,
            r.cid == self.cid,
            r.category == self.category,
            r.name == self.name,
            r.class_flags == self.class_flags,
            r.subcategories == self.subcategories,
            r.vendor == self.vendor,
            r.version == self.version,
            r.sdk_version == self.sdk_version,
    {
        ClassInfoBuilder { cardinality: cardinality, ..self }
    }

    pub fn category(self, category: Category) -> (r: ClassInfoBuilder)
        ensures
            r.category == category,
            r.cid == self.cid,
            r.cardinality == self.cardinality,
            r.name == self.name,
            r.class_flags == self.class_flags,
            r.subcategories == self.subcategories,
            r.vendor == self.vendor,
            r.version == self.version,
            r.sdk_version == self.sdk_version,
    {
        ClassInfoBuilder { category: category, ..self }
    }

    pub fn class_flags(self, class_flags: u32) -> (r: ClassInfoBuilder)
        ensures
            r.class_flags == class_flags,
            r.cid == self.cid,
            r.cardinality == self.cardinality,
            r.category == self.category,
            r.name == self.name,
            r.subcategories == self.subcategories,
            r.vendor == self.vendor,
            r.version == self.version,
            r.sdk_version == self.sdk_version,
    {
        ClassInfoBuilder { class_flags: class_flags, ..self }
    }

    pub fn subcategories(self, subcategories: FxSubcategory) -> (r: ClassInfoBuilder)
        ensures
            r.subcategories == subcategories,
            r.cid == self.cid,
            r.cardinality == self.cardinality,
            r.category == self.category,
            r.name == self.name,
            r.class_flags == self.class_flags,
            r.vendor == self.vendor,
            r.version == self.version,
            r.sdk_version == self.sdk_version,
    {
        ClassInfoBuilder { subcategories: subcategories, ..self }
    }

    pub fn vendor(self, vendor: &str) -> (r: ClassInfoBuilder)
        ensures
            r.vendor@ == vendor@,
            r.cid == self.cid,
            r.cardinality == self.cardinality,
            r.category == self.category,
            r.name == self.name,
            r.class_flags == self.class_flags,
            r.subcategories == self.subcategories,
            r.version == self.version,
            r.sdk_version == self.sdk_version,
    {
        ClassInfoBuilder { vendor: vendor.to_string(), ..self }
    }

    pub fn version(self, version: &str) -> (r: ClassInfoBuilder)
        ensures
            r.version@ == version@,
            r.cid == self.cid,
            r.cardinality == self.cardinality,
            r.category == self.category,
            r.name == self.name,
            r.class_flags == self.class_flags,
            r.subcategories == self.subcategories,
            r.vendor == self.vendor,
            r.sdk_version == self.sdk_version,
    {
        ClassInfoBuilder { version: version.to_string(), ..self }
    }

    pub fn sdk_version(self, sdk_version: &str) -> (r: ClassInfoBuilder)
        ensures
            r.sdk_version@ == sdk_version@,
            r.cid == self.cid,
            r.cardinality == self.cardinality,
            r.category == self.category,
            r.name == self.name,
            r.class_flags == self.class_flags,
            r.subcategories == self.subcategories,
            r.vendor == self.vendor,
            r.version == self.version,
    {
        ClassInfoBuilder { sdk_version: sdk_version.to_string(), ..self }
    }

    pub fn build(self) -> (r: ClassInfo)
        ensures
            r.cid == self.cid,
            r.cardinality == self.cardinality,
            r.category == self.category,
            r.name == self.name,
            r.class_flags == self.class_flags,
            r.subcategories == self.subcategories,
            r.vendor == self.vendor,
            r.version == self.version,
            r.sdk_version == self.sdk_version,
    {
        ClassInfo {
            cid: self.cid,
            cardinality: self.cardinality,
            category: self.category,
            name: self.name,
            class_flags: self.class_flags,
            subcategories: self.subcategories,
            vendor: self.vendor,
            version: self.version,
            sdk_version: self.sdk_version,
        }
    }
}

} // verus!
