//! The catalog of lifecycle and capability fields, and the two steps that
//! consult it when an entity type is defined: augmenting the declared field
//! list, and completing a constructor's field initializers with defaults.
//! Both work on names, types and initializer expressions as text.

use vstd::prelude::*;

verus! {

/// An optional collection that an entity type may opt into.
#[derive(Debug, Clone, Copy, PartialEq, Eq, Structural)]
pub enum Capability {
    Addresses,
    EmailAddresses,
    Metadata,
    Notes,
    PhoneNumbers,
    Tags,
}

/// A field of the catalog: the lifecycle fields, the activity log, and one
/// collection per capability.
#[derive(Debug, Clone, Copy, PartialEq, Eq, Structural)]
pub enum Field {
    Id,
    CreatedDtm,
    ModifiedDtm,
    InactiveDtm,
    ExpiredDtm,
    Activity,
    Collection(Capability),
}

/// A definition that the catalog rejects.
#[derive(Debug, PartialEq, Eq)]
pub enum ConfigError {
    /// A requested capability name that the catalog does not know.
    UnknownCapability(String),
}

/// A declared field: its name and its type, as text.
#[derive(Debug, PartialEq, Eq)]
pub struct FieldDecl {
    pub name: String,
    pub ty: String,
}

/// A field initializer of a constructor: the field and its expression, as text.
#[derive(Debug, PartialEq, Eq)]
pub struct FieldInit {
    pub field: String,
    pub expr: String,
}

impl Clone for FieldDecl {
    fn clone(&self) -> (r: Self)
        ensures
            r == *self,
    {
        FieldDecl { name: self.name.clone(), ty: self.ty.clone() }
    }
}

impl Clone for FieldInit {
    fn clone(&self) -> (r: Self)
        ensures
            r == *self,
    {
        FieldInit { field: self.field.clone(), expr: self.expr.clone() }
    }
}

impl View for FieldDecl {
    type V = (Seq<char>, Seq<char>);

    open spec fn view(&self) -> (Seq<char>, Seq<char>) {
        (self.name@, self.ty@)
    }
}

impl View for FieldInit {
    type V = (Seq<char>, Seq<char>);

    open spec fn view(&self) -> (Seq<char>, Seq<char>) {
        (self.field@, self.expr@)
    }
}

/// The views of declarations.
pub open spec fn decls_view(v: Seq<FieldDecl>) -> Seq<(Seq<char>, Seq<char>)> {
    v.map_values(|d: FieldDecl| d@)
}

/// The views of initializers.
pub open spec fn inits_view(v: Seq<FieldInit>) -> Seq<(Seq<char>, Seq<char>)> {
    v.map_values(|d: FieldInit| d@)
}

pub open spec fn capability_name(c: Capability) -> Seq<char> {
    match c {
        Capability::Addresses => "addresses"@,
        Capability::EmailAddresses => "email_addresses"@,
        Capability::Metadata => "metadata"@,
        Capability::Notes => "notes"@,
        Capability::PhoneNumbers => "phone_numbers"@,
        Capability::Tags => "tags"@,
    }
}

pub open spec fn field_name(f: Field) -> Seq<char> {
    match f {
        Field::Id => "id"@,
        Field::CreatedDtm => "created_dtm"@,
        Field::ModifiedDtm => "modified_dtm"@,
        Field::InactiveDtm => "inactive_dtm"@,
        Field::ExpiredDtm => "expired_dtm"@,
        Field::Activity => "activity"@,
        Field::Collection(c) => capability_name(c),
    }
}

pub open spec fn field_type(f: Field) -> Seq<char> {
    match f {
        Field::Id => "String"@,
        Field::CreatedDtm => "i64"@,
        Field::ModifiedDtm => "i64"@,
        Field::InactiveDtm => "i64"@,
        Field::ExpiredDtm => "i64"@,
        Field::Activity => "Vec<ActivityItem>"@,
        Field::Collection(Capability::Addresses) => "KeyedMap<Address>"@,
        Field::Collection(Capability::EmailAddresses) => "KeyedMap<EmailAddress>"@,
        Field::Collection(Capability::Metadata) => "KeyedMap<String>"@,
        Field::Collection(Capability::Notes) => "KeyedMap<Note>"@,
        Field::Collection(Capability::PhoneNumbers) => "KeyedMap<PhoneNumber>"@,
        Field::Collection(Capability::Tags) => "Vec<String>"@,
    }
}

/// The expression that initializes the field when the constructor does not.
pub open spec fn default_expression(f: Field) -> Seq<char> {
    match f {
        Field::Id => "defaults::id()"@,
        Field::CreatedDtm => "defaults::now()"@,
        Field::ModifiedDtm => "defaults::now()"@,
        Field::InactiveDtm => "defaults::add_days(defaults::now(), 90)"@,
        Field::ExpiredDtm => "defaults::add_years(defaults::now(), 3)"@,
        Field::Activity => "Vec::new()"@,
        Field::Collection(Capability::Tags) => "Vec::new()"@,
        Field::Collection(_) => "KeyedMap::new()"@,
    }
}

/// The name that selects a capability, if any does.
pub open spec fn capability_named(s: Seq<char>) -> Option<Capability> {
    if s == "addresses"@ {
        Some(Capability::Addresses)
    } else if s == "email_addresses"@ {
        Some(Capability::EmailAddresses)
    } else if s == "metadata"@ {
        Some(Capability::Metadata)
    } else if s == "notes"@ {
        Some(Capability::Notes)
    } else if s == "phone_numbers"@ {
        Some(Capability::PhoneNumbers)
    } else if s == "tags"@ {
        Some(Capability::Tags)
    } else {
        None
    }
}

/// The capabilities that `names` select, when each selects one.
pub open spec fn capabilities_named(names: Seq<Seq<char>>) -> Seq<Capability> {
    names.map_values(
        |s: Seq<char>|
            match capability_named(s) {
                Some(c) => c,
                None => Capability::Addresses,
            },
    )
}

/// Every name selects a capability.
pub open spec fn all_known(names: Seq<Seq<char>>) -> bool {
    forall|i: int| 0 <= i < names.len() ==> (#[trigger] capability_named(names[i])) is Some
}

/// The fields every entity has, in order.
pub open spec fn lifecycle() -> Seq<Field> {
    seq![
        Field::Id,
        Field::CreatedDtm,
        Field::ModifiedDtm,
        Field::InactiveDtm,
        Field::ExpiredDtm,
        Field::Activity,
    ]
}

pub open spec fn optional(caps: Seq<Capability>, c: Capability) -> Seq<Field> {
    if caps.contains(c) {
        seq![Field::Collection(c)]
    } else {
        Seq::empty()
    }
}

/// The catalog fields of an entity with the capabilities `caps`: the
/// lifecycle fields, then the requested collections in catalog order.
pub open spec fn catalog(caps: Seq<Capability>) -> Seq<Field> {
    lifecycle() + optional(caps, Capability::Addresses) + optional(caps, Capability::EmailAddresses)
        + optional(caps, Capability::Metadata) + optional(caps, Capability::Notes) + optional(
        caps,
        Capability::PhoneNumbers,
    ) + optional(caps, Capability::Tags)
}

/// The names of declarations or initializers.
pub open spec fn names(s: Seq<(Seq<char>, Seq<char>)>) -> Seq<Seq<char>> {
    s.map_values(|d: (Seq<char>, Seq<char>)| d.0)
}

pub open spec fn unique(s: Seq<Seq<char>>) -> bool {
    forall|i: int, j: int| 0 <= i < j < s.len() ==> s[i] != s[j]
}

pub open spec fn field_names(s: Seq<Field>) -> Seq<Seq<char>> {
    s.map_values(|f: Field| field_name(f))
}

/// The fields of `cat`, in order, whose names are neither in `present` nor
/// taken by an earlier field of the result.
pub open spec fn absent_fields(cat: Seq<Field>, present: Seq<Seq<char>>) -> Seq<Field>
    decreases cat.len(),
{
    if cat.len() == 0 {
        Seq::empty()
    } else {
        let rest = absent_fields(cat.drop_last(), present);
        let n = field_name(cat.last());
        if present.contains(n) || field_names(rest).contains(n) {
            rest
        } else {
            rest.push(cat.last())
        }
    }
}

pub open spec fn decl_of(f: Field) -> (Seq<char>, Seq<char>) {
    (field_name(f), field_type(f))
}

pub open spec fn init_of(f: Field) -> (Seq<char>, Seq<char>) {
    (field_name(f), default_expression(f))
}

/// The declared fields of an augmented type: the catalog fields that
/// `base` does not declare, then `base` as it stands.
pub open spec fn augmented(base: Seq<(Seq<char>, Seq<char>)>, caps: Seq<Capability>) -> Seq<
    (Seq<char>, Seq<char>),
> {
    absent_fields(catalog(caps), names(base)).map_values(|f: Field| decl_of(f)) + base
}

/// A constructor's initializers once completed: the explicit ones as they
/// stand, then a default for every catalog field they leave out.
pub open spec fn completed(explicit: Seq<(Seq<char>, Seq<char>)>, caps: Seq<Capability>) -> Seq<
    (Seq<char>, Seq<char>),
> {
    explicit + absent_fields(catalog(caps), names(explicit)).map_values(|f: Field| init_of(f))
}

/// What `absent_fields` keeps: fields of `cat` named outside `present`,
/// one for each such name, the names all distinct from each other and from
/// `present` when those are distinct.
pub proof fn lemma_absent_fields(cat: Seq<Field>, present: Seq<Seq<char>>)
    ensures
        forall|x: Field| #[trigger]
            absent_fields(cat, present).contains(x) ==> cat.contains(x) && !present.contains(
                field_name(x),
            ),
        forall|x: Field|
            cat.contains(x) && !present.contains(field_name(x)) ==> #[trigger] field_names(
                absent_fields(cat, present),
            ).contains(field_name(x)),
        unique(present) ==> unique(present + field_names(absent_fields(cat, present))),
    decreases cat.len(),
{
    if cat.len() > 0 {
        let init = cat.drop_last();
        let last = cat.last();
        let rest = absent_fields(init, present);
        let n = field_name(last);
        lemma_absent_fields(init, present);
        assert(cat =~= init.push(last));
        let a = absent_fields(cat, present);
        assert(a == if present.contains(n) || field_names(rest).contains(n) {
            rest
        } else {
            rest.push(last)
        });
        assert forall|x: Field| #[trigger] a.contains(x) implies cat.contains(x)
            && !present.contains(field_name(x)) by {
            let k = choose|k: int| 0 <= k < a.len() && a[k] == x;
            if k < rest.len() {
                assert(rest[k] == x);
                assert(rest.contains(x));
                let j = choose|j: int| 0 <= j < init.len() && init[j] == x;
                assert(cat[j] == x);
            } else {
                assert(cat[cat.len() - 1] == x);
            }
        }
        assert forall|x: Field| cat.contains(x) && !present.contains(field_name(x)) implies #[trigger]
            field_names(a).contains(field_name(x)) by {
            let j = choose|j: int| 0 <= j < cat.len() && cat[j] == x;
            if j < init.len() {
                assert(init[j] == x);
                assert(init.contains(x));
                assert(field_names(rest).contains(field_name(x)));
                let k = choose|k: int| 0 <= k < rest.len() && field_names(rest)[k] == field_name(x);
                assert(field_names(a)[k] == field_name(x));
            } else {
                assert(x == last);
                if field_names(rest).contains(n) {
                    let k = choose|k: int| 0 <= k < rest.len() && field_names(rest)[k] == n;
                    assert(field_names(a)[k] == n);
                } else {
                    assert(field_names(a)[a.len() - 1] == n);
                }
            }
        }
        if unique(present) && !(present.contains(n) || field_names(rest).contains(n)) {
            let s0 = present + field_names(rest);
            let s1 = present + field_names(a);
            assert(s1 =~= s0.push(n));
            assert forall|i: int, j: int| 0 <= i < j < s1.len() implies s1[i] != s1[j] by {
                if j == s1.len() - 1 {
                    if i < present.len() {
                        assert(present[i] == s1[i]);
                    } else {
                        assert(field_names(rest)[i - present.len()] == s1[i]);
                    }
                } else {
                    assert(s0[i] == s1[i] && s0[j] == s1[j]);
                }
            }
        }
    }
}

/// `e` is the default initializer of a catalog field that `given` leaves out.
pub open spec fn is_default_for(
    e: (Seq<char>, Seq<char>),
    caps: Seq<Capability>,
    given: Seq<Seq<char>>,
) -> bool {
    exists|f: Field|
        catalog(caps).contains(f) && !given.contains(field_name(f)) && e == #[trigger] init_of(f)
}

/// Completing a constructor keeps every explicit initializer as written
/// and gives each catalog field of the capability set exactly one
/// initializer: the caller's where there is one, else the catalog default.
/// Nothing outside the catalog is added.
pub proof fn lemma_explicit_wins(explicit: Seq<(Seq<char>, Seq<char>)>, caps: Seq<Capability>)
    requires
        unique(names(explicit)),
    ensures
        ({
            let r = completed(explicit, caps);
            &&& r.len() >= explicit.len()
            &&& forall|i: int| 0 <= i < explicit.len() ==> r[i] == explicit[i]
            &&& unique(names(r))
            &&& forall|f: Field|
                catalog(caps).contains(f) ==> #[trigger] names(r).contains(field_name(f))
            &&& forall|f: Field|
                catalog(caps).contains(f) && !names(explicit).contains(field_name(f))
                    ==> #[trigger] r.contains(init_of(f))
            &&& forall|k: int|
                explicit.len() <= k < r.len() ==> is_default_for(#[trigger] r[k], caps, names(explicit))
        }),
{
    let cat = catalog(caps);
    let given = names(explicit);
    let a = absent_fields(cat, given);
    let r = completed(explicit, caps);
    lemma_absent_fields(cat, given);
    assert(names(r) =~= given + field_names(a));
    assert(unique(names(r)));
    assert forall|f: Field| cat.contains(f) implies #[trigger] names(r).contains(field_name(f)) by {
        if given.contains(field_name(f)) {
            let i = choose|i: int| 0 <= i < given.len() && given[i] == field_name(f);
            assert(names(r)[i] == field_name(f));
        } else {
            assert(field_names(a).contains(field_name(f)));
            let k = choose|k: int| 0 <= k < a.len() && field_names(a)[k] == field_name(f);
            assert(names(r)[given.len() + k] == field_name(f));
        }
    }
    assert forall|f: Field| cat.contains(f) && !given.contains(field_name(f)) implies #[trigger]
        r.contains(init_of(f)) by {
        assert(field_names(a).contains(field_name(f)));
        let k = choose|k: int| 0 <= k < a.len() && field_names(a)[k] == field_name(f);
        lemma_field_name_injective(a[k], f);
        assert(r[explicit.len() + k] == init_of(f));
    }
    assert forall|k: int| explicit.len() <= k < r.len() implies is_default_for(
        #[trigger] r[k],
        caps,
        given,
    ) by {
        let y = a[k - explicit.len()];
        assert(a.contains(y));
        assert(r[k] == init_of(y));
    }
}

/// An augmented field list declares every catalog field of the capability
/// set and keeps the base declarations as they stand, after the added ones;
/// augmenting it again changes nothing.
pub proof fn lemma_augment(base: Seq<(Seq<char>, Seq<char>)>, caps: Seq<Capability>)
    ensures
        ({
            let aug = augmented(base, caps);
            &&& aug.len() >= base.len()
            &&& aug.subrange(aug.len() - base.len(), aug.len() as int) == base
            &&& forall|f: Field|
                catalog(caps).contains(f) ==> #[trigger] names(aug).contains(field_name(f))
            &&& augmented(aug, caps) == aug
        }),
{
    let cat = catalog(caps);
    let a = absent_fields(cat, names(base));
    let aug = augmented(base, caps);
    let added = a.map_values(|f: Field| decl_of(f));
    lemma_absent_fields(cat, names(base));
    assert(names(aug) =~= field_names(a) + names(base));
    assert(aug.subrange(aug.len() - base.len(), aug.len() as int) =~= base);
    assert forall|f: Field| cat.contains(f) implies #[trigger] names(aug).contains(field_name(f)) by {
        if names(base).contains(field_name(f)) {
            let i = choose|i: int| 0 <= i < base.len() && names(base)[i] == field_name(f);
            assert(names(aug)[a.len() + i] == field_name(f));
        } else {
            assert(field_names(a).contains(field_name(f)));
            let k = choose|k: int| 0 <= k < a.len() && field_names(a)[k] == field_name(f);
            assert(names(aug)[k] == field_name(f));
        }
    }
    let again = absent_fields(cat, names(aug));
    lemma_absent_fields(cat, names(aug));
    if again.len() > 0 {
        assert(again.contains(again[0]));
        assert(false);
    }
    assert(again =~= Seq::<Field>::empty());
    assert(augmented(aug, caps) =~= aug);
}

/// The length and first character of each field name.
spec fn name_signature(f: Field) -> (int, char) {
    match f {
        Field::Id => (2, 'i'),
        Field::CreatedDtm => (11, 'c'),
        Field::ModifiedDtm => (12, 'm'),
        Field::InactiveDtm => (12, 'i'),
        Field::ExpiredDtm => (11, 'e'),
        Field::Activity => (8, 'a'),
        Field::Collection(Capability::Addresses) => (9, 'a'),
        Field::Collection(Capability::EmailAddresses) => (15, 'e'),
        Field::Collection(Capability::Metadata) => (8, 'm'),
        Field::Collection(Capability::Notes) => (5, 'n'),
        Field::Collection(Capability::PhoneNumbers) => (13, 'p'),
        Field::Collection(Capability::Tags) => (4, 't'),
    }
}

proof fn lemma_name_signature(f: Field)
    ensures
        field_name(f).len() > 0,
        (field_name(f).len() as int, field_name(f)[0]) == name_signature(f),
{
    reveal_strlit("id");
    reveal_strlit("created_dtm");
    reveal_strlit("modified_dtm");
    reveal_strlit("inactive_dtm");
    reveal_strlit("expired_dtm");
    reveal_strlit("activity");
    reveal_strlit("addresses");
    reveal_strlit("email_addresses");
    reveal_strlit("metadata");
    reveal_strlit("notes");
    reveal_strlit("phone_numbers");
    reveal_strlit("tags");
}

/// Distinct fields have distinct names.
pub proof fn lemma_field_name_injective(f: Field, g: Field)
    requires
        field_name(f) == field_name(g),
    ensures
        f == g,
{
    lemma_name_signature(f);
    lemma_name_signature(g);
}

/// The name of a capability, as it is requested.
pub fn capability_name_text(c: Capability) -> (r: String)
    ensures
        r@ == capability_name(c),
{
    match c {
        Capability::Addresses => "addresses".to_owned(),
        Capability::EmailAddresses => "email_addresses".to_owned(),
        Capability::Metadata => "metadata".to_owned(),
        Capability::Notes => "notes".to_owned(),
        Capability::PhoneNumbers => "phone_numbers".to_owned(),
        Capability::Tags => "tags".to_owned(),
    }
}

/// The name of a catalog field.
pub fn field_name_text(f: Field) -> (r: String)
    ensures
        r@ == field_name(f),
{
    match f {
        Field::Id => "id".to_owned(),
        Field::CreatedDtm => "created_dtm".to_owned(),
        Field::ModifiedDtm => "modified_dtm".to_owned(),
        Field::InactiveDtm => "inactive_dtm".to_owned(),
        Field::ExpiredDtm => "expired_dtm".to_owned(),
        Field::Activity => "activity".to_owned(),
        Field::Collection(c) => capability_name_text(c),
    }
}

/// The type of a catalog field.
pub fn field_type_text(f: Field) -> (r: String)
    ensures
        r@ == field_type(f),
{
    match f {
        Field::Id => "String".to_owned(),
        Field::CreatedDtm => "i64".to_owned(),
        Field::ModifiedDtm => "i64".to_owned(),
        Field::InactiveDtm => "i64".to_owned(),
        Field::ExpiredDtm => "i64".to_owned(),
        Field::Activity => "Vec<ActivityItem>".to_owned(),
        Field::Collection(Capability::Addresses) => "KeyedMap<Address>".to_owned(),
        Field::Collection(Capability::EmailAddresses) => "KeyedMap<EmailAddress>".to_owned(),
        Field::Collection(Capability::Metadata) => "KeyedMap<String>".to_owned(),
        Field::Collection(Capability::Notes) => "KeyedMap<Note>".to_owned(),
        Field::Collection(Capability::PhoneNumbers) => "KeyedMap<PhoneNumber>".to_owned(),
        Field::Collection(Capability::Tags) => "Vec<String>".to_owned(),
    }
}

/// The default initializer expression of a catalog field.
pub fn default_expression_text(f: Field) -> (r: String)
    ensures
        r@ == default_expression(f),
{
    match f {
        Field::Id => "defaults::id()".to_owned(),
        Field::CreatedDtm => "defaults::now()".to_owned(),
        Field::ModifiedDtm => "defaults::now()".to_owned(),
        Field::InactiveDtm => "defaults::add_days(defaults::now(), 90)".to_owned(),
        Field::ExpiredDtm => "defaults::add_years(defaults::now(), 3)".to_owned(),
        Field::Activity => "Vec::new()".to_owned(),
        Field::Collection(Capability::Tags) => "Vec::new()".to_owned(),
        Field::Collection(_) => "KeyedMap::new()".to_owned(),
    }
}

/// The capability that `name` selects, if any.
pub fn capability_from_name(name: &String) -> (r: Option<Capability>)
    ensures
        r == capability_named(name@),
{
    if *name == "addresses".to_owned() {
        Some(Capability::Addresses)
    } else if *name == "email_addresses".to_owned() {
        Some(Capability::EmailAddresses)
    } else if *name == "metadata".to_owned() {
        Some(Capability::Metadata)
    } else if *name == "notes".to_owned() {
        Some(Capability::Notes)
    } else if *name == "phone_numbers".to_owned() {
        Some(Capability::PhoneNumbers)
    } else if *name == "tags".to_owned() {
        Some(Capability::Tags)
    } else {
        None
    }
}

/// The capabilities that `names` request; the first name the catalog does
/// not know is a configuration error.
pub fn parse_capabilities(names: &Vec<String>) -> (r: Result<Vec<Capability>, ConfigError>)
    ensures
        match r {
            Ok(caps) => all_known(names@.map_values(|s: String| s@)) && caps@ == capabilities_named(
                names@.map_values(|s: String| s@),
            ),
            Err(ConfigError::UnknownCapability(n)) => exists|i: int|
                0 <= i < names@.len() && names@[i]@ == n@ && capability_named(n@) is None,
        },
{
    let ghost views = names@.map_values(|s: String| s@);
    let mut caps: Vec<Capability> = Vec::new();
    let mut i: usize = 0;
    while i < names.len()
        invariant
            0 <= i <= names@.len(),
            views == names@.map_values(|s: String| s@),
            caps@ == capabilities_named(views.take(i as int)),
            forall|j: int| 0 <= j < i ==> (#[trigger] capability_named(views[j])) is Some,
        decreases names@.len() - i,
    {
        match capability_from_name(&names[i]) {
            Some(c) => {
                caps.push(c);
                assert(capabilities_named(views.take(i + 1)) =~= capabilities_named(
                    views.take(i as int),
                ).push(c));
            },
            None => {
                return Err(ConfigError::UnknownCapability(names[i].clone()));
            },
        }
        i = i + 1;
    }
    assert(views.take(i as int) =~= views);
    Ok(caps)
}

fn has_capability(caps: &Vec<Capability>, c: Capability) -> (r: bool)
    ensures
        r == caps@.contains(c),
{
    let mut i: usize = 0;
    while i < caps.len()
        invariant
            0 <= i <= caps@.len(),
            forall|j: int| 0 <= j < i ==> caps@[j] != c,
        decreases caps@.len() - i,
    {
        if caps[i] == c {
            assert(caps@[i as int] == c);
            return true;
        }
        i = i + 1;
    }
    false
}

/// The catalog fields for a capability set: the lifecycle fields, then the
/// requested collections in catalog order.
pub fn catalog_fields(caps: &Vec<Capability>) -> (r: Vec<Field>)
    ensures
        r@ == catalog(caps@),
{
    let mut r: Vec<Field> = Vec::new();
    r.push(Field::Id);
    r.push(Field::CreatedDtm);
    r.push(Field::ModifiedDtm);
    r.push(Field::InactiveDtm);
    r.push(Field::ExpiredDtm);
    r.push(Field::Activity);
    assert(r@ =~= lifecycle());
    let ghost acc = r@;
    if has_capability(caps, Capability::Addresses) {
        r.push(Field::Collection(Capability::Addresses));
    }
    assert(r@ =~= acc + optional(caps@, Capability::Addresses));
    let ghost acc = r@;
    if has_capability(caps, Capability::EmailAddresses) {
        r.push(Field::Collection(Capability::EmailAddresses));
    }
    assert(r@ =~= acc + optional(caps@, Capability::EmailAddresses));
    let ghost acc = r@;
    if has_capability(caps, Capability::Metadata) {
        r.push(Field::Collection(Capability::Metadata));
    }
    assert(r@ =~= acc + optional(caps@, Capability::Metadata));
    let ghost acc = r@;
    if has_capability(caps, Capability::Notes) {
        r.push(Field::Collection(Capability::Notes));
    }
    assert(r@ =~= acc + optional(caps@, Capability::Notes));
    let ghost acc = r@;
    if has_capability(caps, Capability::PhoneNumbers) {
        r.push(Field::Collection(Capability::PhoneNumbers));
    }
    assert(r@ =~= acc + optional(caps@, Capability::PhoneNumbers));
    let ghost acc = r@;
    if has_capability(caps, Capability::Tags) {
        r.push(Field::Collection(Capability::Tags));
    }
    assert(r@ =~= acc + optional(caps@, Capability::Tags));
    r
}

fn decl_named(v: &Vec<FieldDecl>, name: &String) -> (r: bool)
    ensures
        r == names(decls_view(v@)).contains(name@),
{
    let ghost ns = names(decls_view(v@));
    let mut i: usize = 0;
    while i < v.len()
        invariant
            0 <= i <= v@.len(),
            ns == names(decls_view(v@)),
            forall|j: int| 0 <= j < i ==> ns[j] != name@,
        decreases v@.len() - i,
    {
        if v[i].name == *name {
            assert(ns[i as int] == name@);
            return true;
        }
        i = i + 1;
    }
    false
}

fn init_named(v: &Vec<FieldInit>, name: &String) -> (r: bool)
    ensures
        r == names(inits_view(v@)).contains(name@),
{
    let ghost ns = names(inits_view(v@));
    let mut i: usize = 0;
    while i < v.len()
        invariant
            0 <= i <= v@.len(),
            ns == names(inits_view(v@)),
            forall|j: int| 0 <= j < i ==> ns[j] != name@,
        decreases v@.len() - i,
    {
        if v[i].field == *name {
            assert(ns[i as int] == name@);
            return true;
        }
        i = i + 1;
    }
    false
}

/// The field list of an entity type with the capabilities `caps`: each
/// catalog field that `base` does not declare yet, in catalog order, then
/// the declarations of `base` as they stand.
pub fn augment(base: &Vec<FieldDecl>, caps: &Vec<Capability>) -> (r: Vec<FieldDecl>)
    ensures
        decls_view(r@) == augmented(decls_view(base@), caps@),
{
    let cat = catalog_fields(caps);
    let ghost given = names(decls_view(base@));
    let mut r: Vec<FieldDecl> = Vec::new();
    let mut i: usize = 0;
    while i < cat.len()
        invariant
            0 <= i <= cat@.len(),
            cat@ == catalog(caps@),
            given == names(decls_view(base@)),
            decls_view(r@) == absent_fields(cat@.take(i as int), given).map_values(
                |f: Field| decl_of(f),
            ),
        decreases cat@.len() - i,
    {
        let f = cat[i];
        let name = field_name_text(f);
        let ghost rest = absent_fields(cat@.take(i as int), given);
        assert(cat@.take(i + 1).drop_last() =~= cat@.take(i as int));
        assert(names(decls_view(r@)) =~= field_names(rest));
        if !decl_named(base, &name) && !decl_named(&r, &name) {
            let ty = field_type_text(f);
            let d = FieldDecl { name, ty };
            assert(d@ == decl_of(f));
            let ghost prev = r@;
            r.push(d);
            assert(r@ == prev.push(d));
            assert(decls_view(r@) =~= decls_view(prev).push(d@));
            assert(decls_view(r@) =~= rest.push(f).map_values(|g: Field| decl_of(g)));
        }
        i = i + 1;
    }
    assert(cat@.take(i as int) =~= cat@);
    let ghost added = decls_view(r@);
    let mut j: usize = 0;
    while j < base.len()
        invariant
            0 <= j <= base@.len(),
            decls_view(r@) == added + decls_view(base@).take(j as int),
        decreases base@.len() - j,
    {
        let d = base[j].clone();
        assert(d == base@[j as int]);
        let ghost prev = r@;
        r.push(d);
        assert(decls_view(r@) =~= decls_view(prev).push(d@));
        assert(decls_view(r@) =~= added + decls_view(base@).take(j + 1));
        j = j + 1;
    }
    assert(decls_view(base@).take(j as int) =~= decls_view(base@));
    r
}

/// Augments `base` with the capabilities that `capabilities` name; an
/// unknown name is a configuration error.
pub fn augment_fields(base: &Vec<FieldDecl>, capabilities: &Vec<String>) -> (r: Result<
    Vec<FieldDecl>,
    ConfigError,
>)
    ensures
        match r {
            Ok(v) => all_known(capabilities@.map_values(|s: String| s@)) && decls_view(v@)
                == augmented(
                decls_view(base@),
                capabilities_named(capabilities@.map_values(|s: String| s@)),
            ),
            Err(ConfigError::UnknownCapability(n)) => exists|i: int|
                0 <= i < capabilities@.len() && capabilities@[i]@ == n@ && capability_named(n@) is None,
        },
{
    let caps = parse_capabilities(capabilities)?;
    Ok(augment(base, &caps))
}

/// The initializers of a constructor once completed: `explicit` as it
/// stands, then the default of each catalog field that it leaves out, in
/// catalog order. An explicit initializer is never replaced.
pub fn inject(explicit: &Vec<FieldInit>, caps: &Vec<Capability>) -> (r: Vec<FieldInit>)
    ensures
        inits_view(r@) == completed(inits_view(explicit@), caps@),
{
    let cat = catalog_fields(caps);
    let ghost given = names(inits_view(explicit@));
    let mut r: Vec<FieldInit> = Vec::new();
    let mut j: usize = 0;
    while j < explicit.len()
        invariant
            0 <= j <= explicit@.len(),
            inits_view(r@) == inits_view(explicit@).take(j as int),
        decreases explicit@.len() - j,
    {
        let e = explicit[j].clone();
        assert(e == explicit@[j as int]);
        let ghost prev = r@;
        r.push(e);
        assert(inits_view(r@) =~= inits_view(prev).push(e@));
        assert(inits_view(r@) =~= inits_view(explicit@).take(j + 1));
        j = j + 1;
    }
    assert(inits_view(explicit@).take(j as int) =~= inits_view(explicit@));
    let mut i: usize = 0;
    while i < cat.len()
        invariant
            0 <= i <= cat@.len(),
            cat@ == catalog(caps@),
            given == names(inits_view(explicit@)),
            inits_view(r@) == inits_view(explicit@) + absent_fields(
                cat@.take(i as int),
                given,
            ).map_values(|f: Field| init_of(f)),
        decreases cat@.len() - i,
    {
        let f = cat[i];
        let name = field_name_text(f);
        let ghost rest = absent_fields(cat@.take(i as int), given);
        assert(cat@.take(i + 1).drop_last() =~= cat@.take(i as int));
        assert(names(inits_view(r@)) =~= given + field_names(rest));
        proof {
            assert((given + field_names(rest)).contains(name@) <==> (given.contains(name@)
                || field_names(rest).contains(name@))) by {
                if (given + field_names(rest)).contains(name@) {
                    let k = choose|k: int|
                        0 <= k < (given + field_names(rest)).len() && (given + field_names(
                            rest,
                        ))[k] == name@;
                    if k < given.len() {
                        assert(given[k] == name@);
                    } else {
                        assert(field_names(rest)[k - given.len()] == name@);
                    }
                }
                if given.contains(name@) {
                    let k = choose|k: int| 0 <= k < given.len() && given[k] == name@;
                    assert((given + field_names(rest))[k] == name@);
                }
                if field_names(rest).contains(name@) {
                    let k = choose|k: int|
                        0 <= k < field_names(rest).len() && field_names(rest)[k] == name@;
                    assert((given + field_names(rest))[given.len() + k] == name@);
                }
            }
        }
        if !init_named(&r, &name) {
            let expr = default_expression_text(f);
            let e = FieldInit { field: name, expr };
            assert(e@ == init_of(f));
            let ghost prev = r@;
            r.push(e);
            assert(inits_view(r@) =~= inits_view(prev).push(e@));
            assert(inits_view(r@) =~= inits_view(explicit@) + rest.push(f).map_values(
                |g: Field| init_of(g),
            ));
        }
        i = i + 1;
    }
    assert(cat@.take(i as int) =~= cat@);
    r
}

/// Completes `explicit` for the capabilities that `capabilities` name; an
/// unknown name is a configuration error.
pub fn inject_initializers(explicit: &Vec<FieldInit>, capabilities: &Vec<String>) -> (r: Result<
    Vec<FieldInit>,
    ConfigError,
>)
    ensures
        match r {
            Ok(v) => all_known(capabilities@.map_values(|s: String| s@)) && inits_view(v@)
                == completed(
                inits_view(explicit@),
                capabilities_named(capabilities@.map_values(|s: String| s@)),
            ),
            Err(ConfigError::UnknownCapability(n)) => exists|i: int|
                0 <= i < capabilities@.len() && capabilities@[i]@ == n@ && capability_named(n@) is None,
        },
{
    let caps = parse_capabilities(capabilities)?;
    Ok(inject(explicit, &caps))
}

} // verus!
