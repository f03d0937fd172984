use vstd::prelude::*;

verus! {

/// The type of a table attribute.
#[derive(Clone, Copy, Debug, PartialEq, Eq, Structural)]
pub enum AttrType {
    String,
    Number,
    Binary,
    Other,
}

/// The role of an attribute in the table's key.
#[derive(Clone, Copy, Debug, PartialEq, Eq, Structural)]
pub enum KeyRole {
    Hash,
    Range,
    Other,
}

/// One attribute definition of a table.
#[derive(Clone, Debug)]
pub struct AttributeDef {
    pub name: Option<String>,
    pub attr_type: Option<AttrType>,
}

/// One element of a table's key schema.
#[derive(Clone, Debug)]
pub struct KeyElement {
    pub name: Option<String>,
    pub role: Option<KeyRole>,
}

/// What a table description says of the table's shape.
#[derive(Clone, Debug)]
pub struct TableShape {
    pub attributes: Vec<AttributeDef>,
    pub key_schema: Vec<KeyElement>,
}

/// What a time-to-live description says: the attribute it is enabled on.
#[derive(Clone, Debug)]
pub struct TimeToLiveShape {
    pub attribute_name: Option<String>,
}

/// The answer to a describe request: a failure, an empty answer, or a value.
#[derive(Clone, Debug)]
pub enum Described<T> {
    Failed,
    Empty,
    Found(T),
}

/// Why the table cannot hold leases.
#[derive(Clone, Copy, Debug, PartialEq, Eq, Structural)]
pub enum SchemaError {
    /// The table could not be described: it is probably missing.
    MissingTable,
    /// The table description was empty.
    NoTableDescription,
    /// The key schema does not hold exactly one element.
    KeyCount,
    /// No attribute definition is named `key`.
    MissingKeyAttribute,
    /// The `key` attribute definition has no type.
    MissingKeyAttributeType,
    /// The `key` attribute is not of string type.
    WrongKeyAttributeType,
    /// No key schema element is named `key`.
    MissingKeySchema,
    /// The `key` key schema element has no role.
    MissingKeyRole,
    /// The `key` key schema element is not the hash key.
    WrongKeyRole,
    /// The time to live could not be described.
    MissingTimeToLive,
    /// The time-to-live description was empty.
    NoTimeToLiveDescription,
    /// Native expiry is not enabled on `lease_expiry`.
    TimeToLiveNotSet,
}

/// The kind of schema problem, one for each way the table can be unfit.
#[derive(Clone, Copy, Debug, PartialEq, Eq, Structural)]
pub enum SchemaProblem {
    Table,
    HashKey,
    KeyType,
    TimeToLive,
}

impl SchemaError {
    pub open spec fn spec_problem(self) -> SchemaProblem {
        match self {
            SchemaError::MissingTable | SchemaError::NoTableDescription => SchemaProblem::Table,
            SchemaError::KeyCount | SchemaError::MissingKeyAttribute | SchemaError::MissingKeySchema =>
                SchemaProblem::HashKey,
            SchemaError::MissingKeyAttributeType | SchemaError::WrongKeyAttributeType
            | SchemaError::MissingKeyRole | SchemaError::WrongKeyRole => SchemaProblem::KeyType,
            _ => SchemaProblem::TimeToLive,
        }
    }

    /// The kind of problem this error reports.
    pub fn problem(&self) -> (r: SchemaProblem)
        ensures
            r == self.spec_problem(),
    {
        match self {
            SchemaError::MissingTable | SchemaError::NoTableDescription => SchemaProblem::Table,
            SchemaError::KeyCount | SchemaError::MissingKeyAttribute | SchemaError::MissingKeySchema =>
                SchemaProblem::HashKey,
            SchemaError::MissingKeyAttributeType | SchemaError::WrongKeyAttributeType
            | SchemaError::MissingKeyRole | SchemaError::WrongKeyRole => SchemaProblem::KeyType,
            _ => SchemaProblem::TimeToLive,
        }
    }
}

/// The name of the key attribute.
pub open spec fn key_field() -> Seq<char> {
    "key"@
}

/// The name of the expiry attribute.
pub open spec fn expiry_field() -> Seq<char> {
    "lease_expiry"@
}

pub open spec fn named(name: Option<String>, field: Seq<char>) -> bool {
    name is Some && name->Some_0@ == field
}

/// The first attribute definition named `key`.
pub open spec fn first_key_attr(attrs: Seq<AttributeDef>) -> Option<AttributeDef>
    decreases attrs.len(),
{
    if attrs.len() == 0 {
        None
    } else if named(attrs[0].name, key_field()) {
        Some(attrs[0])
    } else {
        first_key_attr(attrs.drop_first())
    }
}

/// The first key schema element named `key`.
pub open spec fn first_key_element(elems: Seq<KeyElement>) -> Option<KeyElement>
    decreases elems.len(),
{
    if elems.len() == 0 {
        None
    } else if named(elems[0].name, key_field()) {
        Some(elems[0])
    } else {
        first_key_element(elems.drop_first())
    }
}

/// The verdict on the time-to-live description.
pub open spec fn ttl_verdict(ttl: Described<TimeToLiveShape>) -> Result<(), SchemaError> {
    match ttl {
        Described::Failed => Err(SchemaError::MissingTimeToLive),
        Described::Empty => Err(SchemaError::NoTimeToLiveDescription),
        Described::Found(d) => if named(d.attribute_name, expiry_field()) {
            Ok(())
        } else {
            Err(SchemaError::TimeToLiveNotSet)
        },
    }
}

/// The verdict on the table's key: exactly one key element, `key`, a string
/// attribute with the hash role.
pub open spec fn key_verdict(t: TableShape) -> Result<(), SchemaError> {
    if t.key_schema@.len() != 1 {
        Err(SchemaError::KeyCount)
    } else {
        match first_key_attr(t.attributes@) {
            None => Err(SchemaError::MissingKeyAttribute),
            Some(a) => match a.attr_type {
                None => Err(SchemaError::MissingKeyAttributeType),
                Some(ty) => if ty != AttrType::String {
                    Err(SchemaError::WrongKeyAttributeType)
                } else {
                    match first_key_element(t.key_schema@) {
                        None => Err(SchemaError::MissingKeySchema),
                        Some(k) => match k.role {
                            None => Err(SchemaError::MissingKeyRole),
                            Some(role) => if role != KeyRole::Hash {
                                Err(SchemaError::WrongKeyRole)
                            } else {
                                Ok(())
                            },
                        },
                    }
                },
            },
        }
    }
}

/// The verdict on a table and its time-to-live description.
pub open spec fn schema_verdict(table: Described<TableShape>, ttl: Described<TimeToLiveShape>) -> Result<(), SchemaError> {
    match table {
        Described::Failed => Err(SchemaError::MissingTable),
        Described::Empty => Err(SchemaError::NoTableDescription),
        Described::Found(t) => match key_verdict(t) {
            Err(e) => Err(e),
            Ok(()) => ttl_verdict(ttl),
        },
    }
}

fn is_named(name: &Option<String>, field: &String) -> (r: bool)
    ensures
        r == named(*name, field@),
{
    match name {
        Some(n) => n.eq(field),
        None => false,
    }
}

fn find_key_attr(attrs: &Vec<AttributeDef>, field: &String) -> (r: Option<usize>)
    requires
        field@ == key_field(),
    ensures
        match r {
            Some(i) => i < attrs@.len() && first_key_attr(attrs@) == Some(attrs@[i as int]),
            None => first_key_attr(attrs@) is None,
        },
{
    let mut i: usize = 0;
    assert(attrs@.subrange(0, attrs@.len() as int) =~= attrs@);
    while i < attrs.len()
        invariant
            i <= attrs@.len(),
            field@ == key_field(),
            first_key_attr(attrs@) == first_key_attr(attrs@.subrange(i as int, attrs@.len() as int)),
        decreases attrs@.len() - i,
    {
        proof {
            let rest = attrs@.subrange(i as int, attrs@.len() as int);
            assert(rest.drop_first() =~= attrs@.subrange(i + 1, attrs@.len() as int));
        }
        if is_named(&attrs[i].name, field) {
            return Some(i);
        }
        i = i + 1;
    }
    None
}

fn find_key_element(elems: &Vec<KeyElement>, field: &String) -> (r: Option<usize>)
    requires
        field@ == key_field(),
    ensures
        match r {
            Some(i) => i < elems@.len() && first_key_element(elems@) == Some(elems@[i as int]),
            None => first_key_element(elems@) is None,
        },
{
    let mut i: usize = 0;
    assert(elems@.subrange(0, elems@.len() as int) =~= elems@);
    while i < elems.len()
        invariant
            i <= elems@.len(),
            field@ == key_field(),
            first_key_element(elems@) == first_key_element(elems@.subrange(i as int, elems@.len() as int)),
        decreases elems@.len() - i,
    {
        proof {
            let rest = elems@.subrange(i as int, elems@.len() as int);
            assert(rest.drop_first() =~= elems@.subrange(i + 1, elems@.len() as int));
        }
        if is_named(&elems[i].name, field) {
            return Some(i);
        }
        i = i + 1;
    }
    None
}

/// Checks that a table can hold leases: its key schema is the single string
/// hash key `key`, and native expiry is enabled on `lease_expiry`.
pub fn check_schema(table: &Described<TableShape>, ttl: &Described<TimeToLiveShape>) -> (r: Result<(), SchemaError>)
    ensures
        r == schema_verdict(*table, *ttl),
{
    proof {
        reveal_strlit("key");
        reveal_strlit("lease_expiry");
    }
    let t = match table {
        Described::Failed => return Err(SchemaError::MissingTable),
        Described::Empty => return Err(SchemaError::NoTableDescription),
        Described::Found(t) => t,
    };
    let key_name = "key".to_owned();
    if t.key_schema.len() != 1 {
        return Err(SchemaError::KeyCount);
    }
    let a = match find_key_attr(&t.attributes, &key_name) {
        None => return Err(SchemaError::MissingKeyAttribute),
        Some(i) => &t.attributes[i],
    };
    match a.attr_type {
        None => return Err(SchemaError::MissingKeyAttributeType),
        Some(ty) => if ty != AttrType::String {
            return Err(SchemaError::WrongKeyAttributeType);
        },
    }
    let k = match find_key_element(&t.key_schema, &key_name) {
        None => return Err(SchemaError::MissingKeySchema),
        Some(i) => &t.key_schema[i],
    };
    match k.role {
        None => return Err(SchemaError::MissingKeyRole),
        Some(role) => if role != KeyRole::Hash {
            return Err(SchemaError::WrongKeyRole);
        },
    }
    let expiry_name = "lease_expiry".to_owned();
    match ttl {
        Described::Failed => Err(SchemaError::MissingTimeToLive),
        Described::Empty => Err(SchemaError::NoTimeToLiveDescription),
        Described::Found(d) => if is_named(&d.attribute_name, &expiry_name) {
            Ok(())
        } else {
            Err(SchemaError::TimeToLiveNotSet)
        },
    }
}

/// Law: each way a table can be unfit to hold leases is refused with its own
/// kind of problem: a key schema without the `key` hash key as a hash-key
/// problem, a `key` of the wrong type or role as a key-type problem, and
/// native expiry not enabled on `lease_expiry` as a time-to-live problem.
pub proof fn lemma_schema_problems_distinct(t: TableShape, ttl: Described<TimeToLiveShape>)
    ensures
        first_key_element(t.key_schema@) is None && (first_key_attr(t.attributes@) is None
            || first_key_attr(t.attributes@)->Some_0.attr_type == Some(AttrType::String))
            ==> schema_verdict(Described::Found(t), ttl) is Err
            && schema_verdict(Described::Found(t), ttl)->Err_0.spec_problem() == SchemaProblem::HashKey,
        t.key_schema@.len() == 1 && first_key_attr(t.attributes@) is Some
            && first_key_attr(t.attributes@)->Some_0.attr_type is Some
            && first_key_attr(t.attributes@)->Some_0.attr_type != Some(AttrType::String)
            ==> schema_verdict(Described::Found(t), ttl) is Err
            && schema_verdict(Described::Found(t), ttl)->Err_0.spec_problem() == SchemaProblem::KeyType,
        t.key_schema@.len() == 1 && first_key_attr(t.attributes@) is Some
            && first_key_attr(t.attributes@)->Some_0.attr_type == Some(AttrType::String)
            && first_key_element(t.key_schema@) is Some
            && first_key_element(t.key_schema@)->Some_0.role is Some
            && first_key_element(t.key_schema@)->Some_0.role != Some(KeyRole::Hash)
            ==> schema_verdict(Described::Found(t), ttl) is Err
            && schema_verdict(Described::Found(t), ttl)->Err_0.spec_problem() == SchemaProblem::KeyType,
        key_verdict(t) is Ok && !(ttl is Found && named(ttl->Found_0.attribute_name, expiry_field()))
            ==> schema_verdict(Described::Found(t), ttl) is Err
            && schema_verdict(Described::Found(t), ttl)->Err_0.spec_problem() == SchemaProblem::TimeToLive,
{
}

} // verus!
