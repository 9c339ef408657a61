use vstd::prelude::*;

verus! {

/// Storage-assigned identifier of a stage record: twelve bytes.
#[derive(Clone, Copy, Debug, PartialEq, Eq)]
pub struct StageId {
    pub bytes: [u8; 12],
}

impl View for StageId {
    type V = Seq<u8>;

    open spec fn view(&self) -> Seq<u8> {
        self.bytes@
    }
}

/// The identifier that the in-memory store gives to its `n`-th stage record:
/// four zero bytes, then `n` in big-endian order.
pub open spec fn counter_id(n: u64) -> Seq<u8> {
    seq![
        0u8, 0u8, 0u8, 0u8,
        (n >> 56u64) as u8, (n >> 48u64) as u8, (n >> 40u64) as u8, (n >> 32u64) as u8,
        (n >> 24u64) as u8, (n >> 16u64) as u8, (n >> 8u64) as u8, n as u8,
    ]
}

/// Distinct counters give distinct identifiers.
pub proof fn lemma_counter_id_injective(a: u64, b: u64)
    requires
        a != b,
    ensures
        counter_id(a) != counter_id(b),
{
    if counter_id(a) == counter_id(b) {
        assert(counter_id(a)[4] == counter_id(b)[4]);
        assert(counter_id(a)[5] == counter_id(b)[5]);
        assert(counter_id(a)[6] == counter_id(b)[6]);
        assert(counter_id(a)[7] == counter_id(b)[7]);
        assert(counter_id(a)[8] == counter_id(b)[8]);
        assert(counter_id(a)[9] == counter_id(b)[9]);
        assert(counter_id(a)[10] == counter_id(b)[10]);
        assert(counter_id(a)[11] == counter_id(b)[11]);
        assert(((a >> 56u64) as u8 == (b >> 56u64) as u8 && (a >> 48u64) as u8 == (b >> 48u64) as u8
            && (a >> 40u64) as u8 == (b >> 40u64) as u8 && (a >> 32u64) as u8 == (b >> 32u64) as u8
            && (a >> 24u64) as u8 == (b >> 24u64) as u8 && (a >> 16u64) as u8 == (b >> 16u64) as u8
            && (a >> 8u64) as u8 == (b >> 8u64) as u8 && a as u8 == b as u8) ==> a == b)
            by (bit_vector);
    }
}

impl StageId {
    /// The identifier of the `n`-th record of the in-memory store.
    pub fn from_counter(n: u64) -> (r: StageId)
        ensures
            r@ == counter_id(n),
    {
        let bytes: [u8; 12] = [
            0u8, 0u8, 0u8, 0u8,
            (n >> 56u64) as u8, (n >> 48u64) as u8, (n >> 40u64) as u8, (n >> 32u64) as u8,
            (n >> 24u64) as u8, (n >> 16u64) as u8, (n >> 8u64) as u8, n as u8,
        ];
        let r = StageId { bytes };
        assert(r@ =~= counter_id(n));
        r
    }

    /// Byte-wise comparison of two identifiers.
    pub fn same_as(&self, other: &StageId) -> (r: bool)
        ensures
            r == (self@ == other@),
    {
        let mut i: usize = 0;
        while i < 12
            invariant
                i <= 12,
                self@.len() == 12,
                other@.len() == 12,
                forall|k: int| 0 <= k < i ==> self@[k] == other@[k],
            decreases 12 - i,
        {
            if self.bytes[i] != other.bytes[i] {
                assert(self@[i as int] != other@[i as int]);
                return false;
            }
            i += 1;
        }
        assert(self@ =~= other@);
        true
    }
}

/// An immutable record of the packages and tools exposed at one version,
/// scoped by a source URI.
#[derive(Clone, Debug, PartialEq)]
pub struct PackageCollection {
    pub version: String,
    pub packages: Vec<String>,
    pub herit: String,
    pub tools: Vec<String>,
    pub created_at: String,
    pub created_by: String,
    pub uri: String,
}

pub struct CollectionView {
    pub version: Seq<char>,
    pub packages: Seq<Seq<char>>,
    pub herit: Seq<char>,
    pub tools: Seq<Seq<char>>,
    pub created_at: Seq<char>,
    pub created_by: Seq<char>,
    pub uri: Seq<char>,
}

impl View for PackageCollection {
    type V = CollectionView;

    open spec fn view(&self) -> CollectionView {
        CollectionView {
            version: self.version@,
            packages: self.packages.deep_view(),
            herit: self.herit@,
            tools: self.tools.deep_view(),
            created_at: self.created_at@,
            created_by: self.created_by@,
            uri: self.uri@,
        }
    }
}

/// A named, versioned pointer to a resolved environment snapshot.
#[derive(Clone, Debug, PartialEq)]
pub struct Stage {
    pub id: Option<StageId>,
    pub name: String,
    pub uri: String,
    pub from_version: String,
    pub rxt: String,
    pub tools: Vec<String>,
    pub created_at: String,
    pub created_by: String,
    pub active: bool,
}

pub struct StageView {
    pub id: Option<Seq<u8>>,
    pub name: Seq<char>,
    pub uri: Seq<char>,
    pub from_version: Seq<char>,
    pub rxt: Seq<char>,
    pub tools: Seq<Seq<char>>,
    pub created_at: Seq<char>,
    pub created_by: Seq<char>,
    pub active: bool,
}

pub open spec fn id_view(id: Option<StageId>) -> Option<Seq<u8>> {
    match id {
        Some(i) => Some(i@),
        None => None,
    }
}

impl View for Stage {
    type V = StageView;

    open spec fn view(&self) -> StageView {
        StageView {
            id: id_view(self.id),
            name: self.name@,
            uri: self.uri@,
            from_version: self.from_version@,
            rxt: self.rxt@,
            tools: self.tools.deep_view(),
            created_at: self.created_at@,
            created_by: self.created_by@,
            active: self.active,
        }
    }
}

impl StageView {
    /// The record carries this name and URI.
    pub open spec fn in_group(self, name: Seq<char>, uri: Seq<char>) -> bool {
        self.name == name && self.uri == uri
    }

    /// The same record with its `active` flag set to `active`.
    pub open spec fn with_active(self, active: bool) -> StageView {
        StageView { active, ..self }
    }
}

pub open spec fn stage_views(v: Seq<Stage>) -> Seq<StageView> {
    v.map_values(|s: Stage| s@)
}

pub open spec fn collection_views(v: Seq<PackageCollection>) -> Seq<CollectionView> {
    v.map_values(|c: PackageCollection| c@)
}

/// A copy of a list of strings.
pub fn copy_strings(v: &Vec<String>) -> (r: Vec<String>)
    ensures
        r.deep_view() == v.deep_view(),
{
    let mut r: Vec<String> = Vec::new();
    let mut i: usize = 0;
    while i < v.len()
        invariant
            i <= v.len(),
            r@.len() == i,
            forall|k: int| 0 <= k < i ==> r@[k]@ == v@[k]@,
        decreases v.len() - i,
    {
        r.push(v[i].clone());
        i += 1;
    }
    assert(r.deep_view() =~= v.deep_view());
    r
}

impl PackageCollection {
    /// A copy of this record.
    pub fn copy(&self) -> (r: PackageCollection)
        ensures
            r@ == self@,
    {
        PackageCollection {
            version: self.version.clone(),
            packages: copy_strings(&self.packages),
            herit: self.herit.clone(),
            tools: copy_strings(&self.tools),
            created_at: self.created_at.clone(),
            created_by: self.created_by.clone(),
            uri: self.uri.clone(),
        }
    }
}

impl Stage {
    /// A copy of this record.
    pub fn copy(&self) -> (r: Stage)
        ensures
            r@ == self@,
    {
        Stage {
            id: self.id,
            name: self.name.clone(),
            uri: self.uri.clone(),
            from_version: self.from_version.clone(),
            rxt: self.rxt.clone(),
            tools: copy_strings(&self.tools),
            created_at: self.created_at.clone(),
            created_by: self.created_by.clone(),
            active: self.active,
        }
    }
}

} // verus!
