use vstd::prelude::*;

use crate::selector::{selector_of, selector_spec};

verus! {

/// The identity of a constructor's business error type, as the decoder needs
/// it: enough to interpret the layer-2 payload.
#[derive(Clone, Copy, Debug, PartialEq, Eq, Structural)]
pub enum TypeSchema {
    /// Sentinel: the constructor is infallible and has no business layer.
    NoBusinessLayer,
    /// A fieldless business error type: its encoding is empty.
    UnitError,
    /// A business error type whose encoding is exactly this many bytes.
    FixedBytes(usize),
}

/// How many bytes the layer-2 error payload of a schema occupies.
pub open spec fn schema_len(s: TypeSchema) -> nat {
    match s {
        TypeSchema::NoBusinessLayer => 0,
        TypeSchema::UnitError => 0,
        TypeSchema::FixedBytes(n) => n as nat,
    }
}

/// Executable counterpart of `schema_len`.
pub fn schema_byte_len(s: &TypeSchema) -> (n: usize)
    ensures
        n as nat == schema_len(*s),
{
    match s {
        TypeSchema::NoBusinessLayer => 0,
        TypeSchema::UnitError => 0,
        TypeSchema::FixedBytes(n) => *n,
    }
}

/// Metadata of one declared constructor: its selector id, whether its
/// declared return type is a result, and the schema of its business error.
#[derive(Clone, Copy, Debug, PartialEq, Eq, Structural)]
pub struct ConstructorDescriptor {
    pub id: u32,
    pub is_fallible: bool,
    pub error_schema: TypeSchema,
}

/// A descriptor is well formed when the sentinel schema stands exactly for
/// the infallible constructors.
pub open spec fn descriptor_wf(d: ConstructorDescriptor) -> bool {
    d.is_fallible <==> !(d.error_schema is NoBusinessLayer)
}

/// No two descriptors of a table share a selector id.
pub open spec fn ids_distinct(t: Seq<ConstructorDescriptor>) -> bool {
    forall|i: int, j: int| 0 <= i < j < t.len() ==> t[i].id != t[j].id
}

/// The first descriptor of the table that carries the id, if any.
pub open spec fn lookup_spec(t: Seq<ConstructorDescriptor>, id: u32) -> Option<ConstructorDescriptor>
    decreases t.len(),
{
    if t.len() == 0 {
        None
    } else if t[0].id == id {
        Some(t[0])
    } else {
        lookup_spec(t.subrange(1, t.len() as int), id)
    }
}

/// A found descriptor stands in the table under its id.
pub proof fn lemma_lookup_spec_found(t: Seq<ConstructorDescriptor>, id: u32)
    ensures
        lookup_spec(t, id) matches Some(d) ==> exists|k: int|
            0 <= k < t.len() && t[k] == d && t[k].id == id,
    decreases t.len(),
{
    if t.len() > 0 && t[0].id != id {
        lemma_lookup_spec_found(t.subrange(1, t.len() as int), id);
        if lookup_spec(t, id) is Some {
            let d = lookup_spec(t, id)->Some_0;
            let k = choose|k: int|
                0 <= k < t.len() - 1 && t.subrange(1, t.len() as int)[k] == d
                    && t.subrange(1, t.len() as int)[k].id == id;
            assert(t[k + 1] == d && t[k + 1].id == id);
        }
    }
}

/// Scanning past a prefix that holds no match leaves the lookup unchanged.
pub proof fn lemma_lookup_spec_skip(t: Seq<ConstructorDescriptor>, id: u32, i: int)
    requires
        0 <= i <= t.len(),
        forall|k: int| 0 <= k < i ==> t[k].id != id,
    ensures
        lookup_spec(t, id) == lookup_spec(t.subrange(i, t.len() as int), id),
    decreases i,
{
    if i > 0 {
        let rest = t.subrange(1, t.len() as int);
        assert(t[0].id != id);
        assert(lookup_spec(t, id) == lookup_spec(rest, id));
        assert(forall|k: int| 0 <= k < i - 1 ==> rest[k].id != id);
        lemma_lookup_spec_skip(rest, id, i - 1);
        assert(rest.subrange(i - 1, rest.len() as int) =~= t.subrange(i, t.len() as int));
    } else {
        assert(t.subrange(0, t.len() as int) =~= t);
    }
}

/// The names of the declared constructors, as ASCII bytes.
pub open spec fn name_new() -> Seq<u8> {
    seq![0x6eu8, 0x65u8, 0x77u8]
}

pub open spec fn name_try_new() -> Seq<u8> {
    seq![0x74u8, 0x72u8, 0x79u8, 0x5fu8] + name_new()
}

pub open spec fn name_revert_new() -> Seq<u8> {
    seq![0x72u8, 0x65u8, 0x76u8, 0x65u8, 0x72u8, 0x74u8, 0x5fu8] + name_new()
}

pub open spec fn name_try_revert_new() -> Seq<u8> {
    seq![0x74u8, 0x72u8, 0x79u8, 0x5fu8] + name_revert_new()
}

/// The name `new`.
pub fn name_new_bytes() -> (v: Vec<u8>)
    ensures
        v@ == name_new(),
{
    let v = vec![0x6eu8, 0x65u8, 0x77u8];
    proof {
        assert(v@ =~= name_new());
    }
    v
}

/// The name `try_new`.
pub fn name_try_new_bytes() -> (v: Vec<u8>)
    ensures
        v@ == name_try_new(),
{
    let v = vec![0x74u8, 0x72u8, 0x79u8, 0x5fu8, 0x6eu8, 0x65u8, 0x77u8];
    proof {
        assert(v@ =~= name_try_new());
    }
    v
}

/// The name `revert_new`.
pub fn name_revert_new_bytes() -> (v: Vec<u8>)
    ensures
        v@ == name_revert_new(),
{
    let v = vec![
        0x72u8, 0x65u8, 0x76u8, 0x65u8, 0x72u8, 0x74u8, 0x5fu8, 0x6eu8, 0x65u8, 0x77u8,
    ];
    proof {
        assert(v@ =~= name_revert_new());
    }
    v
}

/// The name `try_revert_new`.
pub fn name_try_revert_new_bytes() -> (v: Vec<u8>)
    ensures
        v@ == name_try_revert_new(),
{
    let v = vec![
        0x74u8, 0x72u8, 0x79u8, 0x5fu8, 0x72u8, 0x65u8, 0x76u8, 0x65u8, 0x72u8, 0x74u8,
        0x5fu8, 0x6eu8, 0x65u8, 0x77u8,
    ];
    proof {
        assert(v@ =~= name_try_revert_new());
    }
    v
}

/// The exhaustive table of declared constructors, in declaration order.
pub open spec fn declared_table() -> Seq<ConstructorDescriptor> {
    seq![
        ConstructorDescriptor {
            id: selector_spec(name_new()),
            is_fallible: false,
            error_schema: TypeSchema::NoBusinessLayer,
        },
        ConstructorDescriptor {
            id: selector_spec(name_try_new()),
            is_fallible: true,
            error_schema: TypeSchema::UnitError,
        },
        ConstructorDescriptor {
            id: selector_spec(name_revert_new()),
            is_fallible: false,
            error_schema: TypeSchema::NoBusinessLayer,
        },
        ConstructorDescriptor {
            id: selector_spec(name_try_revert_new()),
            is_fallible: true,
            error_schema: TypeSchema::UnitError,
        },
    ]
}

/// The constructor registry: immutable after initialization, looked up by
/// selector id, never mutated afterwards.
pub struct Registry {
    table: Vec<ConstructorDescriptor>,
}

impl View for Registry {
    type V = Seq<ConstructorDescriptor>;

    closed spec fn view(&self) -> Seq<ConstructorDescriptor> {
        self.table@
    }
}

impl Registry {
    /// Populates the registry exhaustively from the declared constructors.
    pub fn new() -> (r: Registry)
        ensures
            r@ == declared_table(),
    {
        let mut table: Vec<ConstructorDescriptor> = Vec::new();
        table.push(ConstructorDescriptor {
            id: selector_of(&name_new_bytes()),
            is_fallible: false,
            error_schema: TypeSchema::NoBusinessLayer,
        });
        table.push(ConstructorDescriptor {
            id: selector_of(&name_try_new_bytes()),
            is_fallible: true,
            error_schema: TypeSchema::UnitError,
        });
        table.push(ConstructorDescriptor {
            id: selector_of(&name_revert_new_bytes()),
            is_fallible: false,
            error_schema: TypeSchema::NoBusinessLayer,
        });
        table.push(ConstructorDescriptor {
            id: selector_of(&name_try_revert_new_bytes()),
            is_fallible: true,
            error_schema: TypeSchema::UnitError,
        });
        proof {
            assert(table@ =~= declared_table());
        }
        Registry { table }
    }

    /// Pure lookup of the descriptor that carries a selector id.
    pub fn lookup(&self, id: u32) -> (r: Option<ConstructorDescriptor>)
        ensures
            r == lookup_spec(self@, id),
    {
        let mut i: usize = 0;
        while i < self.table.len()
            invariant
                0 <= i <= self.table.len(),
                forall|k: int| 0 <= k < i ==> self.table@[k].id != id,
            decreases self.table.len() - i,
        {
            if self.table[i].id == id {
                proof {
                    lemma_lookup_spec_skip(self@, id, i as int);
                    assert(self@.subrange(i as int, self@.len() as int)[0] == self@[i as int]);
                }
                return Some(self.table[i]);
            }
            i = i + 1;
        }
        proof {
            lemma_lookup_spec_skip(self@, id, i as int);
            assert(self@.subrange(i as int, self@.len() as int).len() == 0);
        }
        None
    }

    /// Reflection query for the decoder: the business-error schema of a known
    /// selector. `None` means the selector is unknown; a known infallible
    /// constructor yields the sentinel `NoBusinessLayer`, not an error.
    pub fn error_schema_of(&self, id: u32) -> (r: Option<TypeSchema>)
        ensures
            r == match lookup_spec(self@, id) {
                Some(d) => Some(d.error_schema),
                None => None::<TypeSchema>,
            },
    {
        match self.lookup(id) {
            Some(d) => Some(d.error_schema),
            None => None,
        }
    }

    /// Whether a known selector's constructor declares a result return type.
    pub fn is_fallible_of(&self, id: u32) -> (r: Option<bool>)
        ensures
            r == match lookup_spec(self@, id) {
                Some(d) => Some(d.is_fallible),
                None => None::<bool>,
            },
    {
        match self.lookup(id) {
            Some(d) => Some(d.is_fallible),
            None => None,
        }
    }

    /// Checks that no two descriptors share a selector id. A collision among
    /// declared names is a build-time error of the surrounding system.
    pub fn check_ids_distinct(&self) -> (b: bool)
        ensures
            b == ids_distinct(self@),
    {
        let mut i: usize = 0;
        while i < self.table.len()
            invariant
                0 <= i <= self.table.len(),
                forall|p: int, q: int| 0 <= p < q < self.table@.len() && p < i ==> self.table@[p].id != self.table@[q].id,
            decreases self.table.len() - i,
        {
            let mut j: usize = i + 1;
            while j < self.table.len()
                invariant
                    i < self.table.len(),
                    i < j <= self.table.len(),
                    forall|q: int| i < q < j ==> self.table@[i as int].id != self.table@[q].id,
                decreases self.table.len() - j,
            {
                if self.table[i].id == self.table[j].id {
                    return false;
                }
                j = j + 1;
            }
            i = i + 1;
        }
        true
    }
}

/// Unfolds the lookup over a four-entry table into its explicit first-match
/// chain.
pub proof fn lemma_lookup_spec4(t: Seq<ConstructorDescriptor>, id: u32)
    requires
        t.len() == 4,
    ensures
        lookup_spec(t, id) == (if t[0].id == id {
            Some(t[0])
        } else if t[1].id == id {
            Some(t[1])
        } else if t[2].id == id {
            Some(t[2])
        } else if t[3].id == id {
            Some(t[3])
        } else {
            None::<ConstructorDescriptor>
        }),
{
    let t1 = t.subrange(1, 4);
    let t2 = t1.subrange(1, 3);
    let t3 = t2.subrange(1, 2);
    let t4 = t3.subrange(1, 1);
    assert(t1.len() == 3 && t1[0] == t[1] && t1[1] == t[2] && t1[2] == t[3]);
    assert(t2 =~= t.subrange(2, 4));
    assert(t2.len() == 2 && t2[0] == t[2] && t2[1] == t[3]);
    assert(t3 =~= t.subrange(3, 4));
    assert(t3.len() == 1 && t3[0] == t[3]);
    assert(t4.len() == 0);
    assert(lookup_spec(t4, id) is None);
    assert(lookup_spec(t3, id) == (if t[3].id == id {
        Some(t[3])
    } else {
        lookup_spec(t4, id)
    }));
    assert(lookup_spec(t2, id) == (if t[2].id == id {
        Some(t[2])
    } else {
        lookup_spec(t3, id)
    }));
    assert(lookup_spec(t1, id) == (if t[1].id == id {
        Some(t[1])
    } else {
        lookup_spec(t2, id)
    }));
    assert(lookup_spec(t, id) == (if t[0].id == id {
        Some(t[0])
    } else {
        lookup_spec(t1, id)
    }));
}

/// Registry consistency: in the declared table, when the declared selector
/// ids are pairwise distinct, looking each declared constructor up yields
/// its declared fallibility, and the sentinel schema stands exactly for the
/// constructors that are not fallible.
pub proof fn lemma_registry_consistency(t: Seq<ConstructorDescriptor>)
    requires
        t == declared_table(),
        ids_distinct(t),
    ensures
        lookup_spec(t, selector_spec(name_new())) == Some(t[0]),
        lookup_spec(t, selector_spec(name_try_new())) == Some(t[1]),
        lookup_spec(t, selector_spec(name_revert_new())) == Some(t[2]),
        lookup_spec(t, selector_spec(name_try_revert_new())) == Some(t[3]),
        !t[0].is_fallible && t[0].error_schema is NoBusinessLayer,
        t[1].is_fallible && t[1].error_schema is UnitError,
        !t[2].is_fallible && t[2].error_schema is NoBusinessLayer,
        t[3].is_fallible && t[3].error_schema is UnitError,
        forall|id: u32| #[trigger] lookup_spec(t, id) matches Some(d) ==> descriptor_wf(d),
{
    lemma_lookup_spec4(t, selector_spec(name_new()));
    lemma_lookup_spec4(t, selector_spec(name_try_new()));
    lemma_lookup_spec4(t, selector_spec(name_revert_new()));
    lemma_lookup_spec4(t, selector_spec(name_try_revert_new()));
    assert forall|id: u32| #[trigger] lookup_spec(t, id) is Some implies descriptor_wf(
        lookup_spec(t, id)->Some_0,
    ) by {
        lemma_lookup_spec_found(t, id);
    }
}

} // verus!
