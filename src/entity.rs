//! The entity: lifecycle fields, the activity log, the capability
//! collections and the operations on each.

use crate::catalog::Capability;
use crate::defaults::{
    add_days, add_years, default_access, id, is_uuid_text, months_after, now, NEVER,
    SECONDS_PER_DAY,
};
use crate::keyed::KeyedMap;
use crate::records::{
    lossy_text, occurs_in, text_contains, ActivityItem, Address, EmailAddress, Note, PhoneNumber,
};
use vstd::prelude::*;

verus! {

/// An entity record. Its lifecycle fields and activity log are always
/// there; `capabilities` says which of the collections it was given.
#[derive(Debug)]
pub struct Entity {
    /// The unique identifier.
    pub id: String,
    /// When the entity was created (unix seconds, UTC).
    pub created_dtm: i64,
    /// When it was last modified.
    pub modified_dtm: i64,
    /// When it becomes inactive.
    pub inactive_dtm: i64,
    /// When it expires.
    pub expired_dtm: i64,
    /// What has been done to it, oldest first.
    pub activity: Vec<ActivityItem>,
    /// The collections it has opted into.
    pub capabilities: Vec<Capability>,
    pub addresses: KeyedMap<Address>,
    pub email_addresses: KeyedMap<EmailAddress>,
    pub metadata: KeyedMap<String>,
    pub notes: KeyedMap<Note>,
    pub phone_numbers: KeyedMap<PhoneNumber>,
    pub tags: Vec<String>,
    /// The kind of entity.
    pub category: String,
}

/// Values a constructor sets itself for lifecycle fields; a field left
/// `None` gets its default.
#[derive(Debug)]
pub struct LifecycleValues {
    pub id: Option<String>,
    pub created_dtm: Option<i64>,
    pub modified_dtm: Option<i64>,
    pub inactive_dtm: Option<i64>,
    pub expired_dtm: Option<i64>,
    pub activity: Option<Vec<ActivityItem>>,
}

/// The value a constructor set, else the default `d`.
pub open spec fn given_or(v: Option<i64>, d: int) -> int {
    match v {
        Some(x) => x as int,
        None => d,
    }
}

impl LifecycleValues {
    /// No field set: every lifecycle field takes its default.
    pub fn none() -> (r: Self)
        ensures
            r.id is None,
            r.created_dtm is None,
            r.modified_dtm is None,
            r.inactive_dtm is None,
            r.expired_dtm is None,
            r.activity is None,
    {
        LifecycleValues {
            id: None,
            created_dtm: None,
            modified_dtm: None,
            inactive_dtm: None,
            expired_dtm: None,
            activity: None,
        }
    }
}

/// The smallest entity: an identifier alone.
#[derive(Debug)]
pub struct AbstractEntity {
    pub uid: String,
}

impl AbstractEntity {
    /// An entity with a fresh random identifier.
    pub fn new() -> (r: Self)
        ensures
            is_uuid_text(r.uid@),
    {
        AbstractEntity { uid: id() }
    }
}

/// `new` holds exactly the values an address gets from `Address::update`
/// on `old` with these arguments.
pub open spec fn address_updated(
    old: Address,
    new: Address,
    category: String,
    line_1: String,
    line_2: String,
    line_3: String,
    line_4: String,
    country_code: String,
) -> bool {
    &&& new.id == old.id
    &&& new.created_dtm == old.created_dtm
    &&& new.modified_dtm >= old.created_dtm
    &&& new.category == category
    &&& new.line_1 == line_1
    &&& new.line_2 == line_2
    &&& new.line_3 == line_3
    &&& new.line_4 == line_4
    &&& new.country_code == country_code
}

/// `new` holds exactly the values a note gets from `Note::update` on `old`.
pub open spec fn note_updated(
    old: Note,
    new: Note,
    auth: String,
    cont: Seq<u8>,
    acc: Option<String>,
) -> bool {
    &&& new.id == old.id
    &&& new.created_dtm == old.created_dtm
    &&& new.modified_dtm >= old.created_dtm
    &&& new.author == auth
    &&& new.content@ == cont
    &&& new.access == match acc {
        Some(a) => a,
        None => old.access,
    }
}

/// The tags after adding `t`: unchanged if it is there, else `t` at the end.
pub open spec fn tags_after_add(tags: Seq<Seq<char>>, t: Seq<char>) -> Seq<Seq<char>> {
    if tags.contains(t) {
        tags
    } else {
        tags.push(t)
    }
}

/// The tags after removing `t`: its first occurrence taken out.
pub open spec fn tags_after_remove(tags: Seq<Seq<char>>, t: Seq<char>) -> Seq<Seq<char>> {
    match tags.index_of_first(t) {
        Some(i) => tags.remove(i),
        None => tags,
    }
}

/// Adding a tag twice leaves what adding it once left, and the tag is then
/// present; a list without duplicates keeps none; removing a present tag
/// shortens the list by one.
pub proof fn lemma_tags(tags: Seq<Seq<char>>, t: Seq<char>)
    ensures
        tags_after_add(tags_after_add(tags, t), t) == tags_after_add(tags, t),
        tags_after_add(tags, t).contains(t),
        tags.no_duplicates() ==> tags_after_add(tags, t).no_duplicates(),
        tags.contains(t) ==> tags_after_remove(tags, t).len() == tags.len() - 1,
        tags.contains(t) ==> tags_after_add(tags, t).len() == tags.len(),
        !tags.contains(t) ==> tags_after_add(tags, t).len() == tags.len() + 1,
{
    let added = tags_after_add(tags, t);
    if !tags.contains(t) {
        assert(added[tags.len() as int] == t);
    }
    assert(added.contains(t));
    if tags.no_duplicates() && !tags.contains(t) {
        assert forall|i: int, j: int| 0 <= i < added.len() && 0 <= j < added.len() && i != j implies added[i]
            != added[j] by {
            if i == tags.len() {
                assert(tags[j] == added[j]);
            } else if j == tags.len() {
                assert(tags[i] == added[i]);
            }
        }
    }
    if tags.contains(t) {
        tags.index_of_first_ensures(t);
    }
}

impl Entity {
    /// The tags as text.
    pub open spec fn tag_views(&self) -> Seq<Seq<char>> {
        self.tags@.map_values(|t: String| t@)
    }

    /// The collections are well formed and the entity was not modified
    /// before it was created.
    pub open spec fn wf(&self) -> bool {
        &&& self.created_dtm <= self.modified_dtm
        &&& self.addresses.wf()
        &&& self.email_addresses.wf()
        &&& self.metadata.wf()
        &&& self.notes.wf()
        &&& self.phone_numbers.wf()
    }

    /// Lifecycle defaults taken at time `t` with identifier `id`: created and
    /// modified at `t`, inactive 90 days later, expired 3 years later; the
    /// activity log and every collection empty.
    pub open spec fn fresh(&self, t: int) -> bool {
        &&& self.wf()
        &&& is_uuid_text(self.id@)
        &&& 0 <= t <= NEVER
        &&& self.created_dtm == t
        &&& self.modified_dtm == t
        &&& self.inactive_dtm == t + 90 * SECONDS_PER_DAY
        &&& self.expired_dtm == months_after(t, 36)
        &&& self.activity@.len() == 0
        &&& self.addresses.entries().len() == 0
        &&& self.email_addresses.entries().len() == 0
        &&& self.metadata.entries().len() == 0
        &&& self.notes.entries().len() == 0
        &&& self.phone_numbers.entries().len() == 0
        &&& self.tags@.len() == 0
    }

    /// A new entity of `category` with the given capabilities: each
    /// lifecycle field that `given` sets keeps that value; every other one,
    /// and every collection, gets its default, taken at one clock reading.
    pub fn build(category: String, capabilities: Vec<Capability>, given: LifecycleValues) -> (r:
        Self)
        ensures
            exists|reading: int, generated: String|
                {
                    &&& 0 <= reading <= NEVER
                    &&& is_uuid_text(generated@)
                    &&& r.id == given.id.unwrap_or(generated)
                    &&& r.created_dtm == given_or(given.created_dtm, reading)
                    &&& r.modified_dtm == given_or(given.modified_dtm, reading)
                    &&& r.inactive_dtm == given_or(
                        given.inactive_dtm,
                        reading + 90 * SECONDS_PER_DAY,
                    )
                    &&& r.expired_dtm == given_or(given.expired_dtm, months_after(reading, 36))
                },
            r.activity@ == match given.activity {
                Some(a) => a@,
                None => Seq::<ActivityItem>::empty(),
            },
            r.capabilities == capabilities,
            r.category == category,
            r.addresses.wf() && r.addresses.entries().len() == 0,
            r.email_addresses.wf() && r.email_addresses.entries().len() == 0,
            r.metadata.wf() && r.metadata.entries().len() == 0,
            r.notes.wf() && r.notes.entries().len() == 0,
            r.phone_numbers.wf() && r.phone_numbers.entries().len() == 0,
            r.tags@.len() == 0,
    {
        let t = now();
        let default_id = id();
        let ghost gid = default_id;
        let inactive = add_days(t, 90);
        let expired = add_years(t, 3);
        let r = Entity {
            id: match given.id {
                Some(v) => v,
                None => default_id,
            },
            created_dtm: match given.created_dtm {
                Some(v) => v,
                None => t,
            },
            modified_dtm: match given.modified_dtm {
                Some(v) => v,
                None => t,
            },
            inactive_dtm: match given.inactive_dtm {
                Some(v) => v,
                None => inactive,
            },
            expired_dtm: match given.expired_dtm {
                Some(v) => v,
                None => expired,
            },
            activity: match given.activity {
                Some(v) => v,
                None => Vec::new(),
            },
            capabilities,
            addresses: KeyedMap::new(),
            email_addresses: KeyedMap::new(),
            metadata: KeyedMap::new(),
            notes: KeyedMap::new(),
            phone_numbers: KeyedMap::new(),
            tags: Vec::new(),
            category,
        };
        assert(r.id == given.id.unwrap_or(gid));
        assert(r.created_dtm == given_or(given.created_dtm, t as int));
        assert(r.modified_dtm == given_or(given.modified_dtm, t as int));
        assert(r.inactive_dtm == given_or(given.inactive_dtm, t + 90 * SECONDS_PER_DAY));
        assert(r.expired_dtm == given_or(given.expired_dtm, months_after(t as int, 36)));
        r
    }

    /// A new entity of `category` with the given capabilities, its lifecycle
    /// fields at their defaults.
    pub fn with_capabilities(category: String, capabilities: Vec<Capability>) -> (r: Self)
        ensures
            exists|t: int| r.fresh(t),
            r.category == category,
            r.capabilities == capabilities,
    {
        let r = Self::build(category, capabilities, LifecycleValues::none());
        assert(r.activity@ =~= Seq::<ActivityItem>::empty());
        assert(r.fresh(r.created_dtm as int));
        r
    }

    /// A new entity of `category` without capabilities, its lifecycle
    /// fields at their defaults.
    pub fn new(category: String) -> (r: Self)
        ensures
            exists|t: int| r.fresh(t),
            r.category == category,
            r.capabilities@.len() == 0,
    {
        Self::with_capabilities(category, Vec::new())
    }

    /// The position of the first occurrence of `tag`, which must be there
    /// (were it not, the position would be past the end).
    fn tag_position(&self, tag: &String) -> (r: usize)
        requires
            self.tag_views().contains(tag@),
        ensures
            r < self.tags@.len(),
            self.tag_views()[r as int] == tag@,
            forall|j: int| 0 <= j < r ==> self.tag_views()[j] != tag@,
    {
        let mut i: usize = 0;
        while i < self.tags.len()
            invariant
                0 <= i <= self.tags@.len(),
                forall|j: int| 0 <= j < i ==> self.tag_views()[j] != tag@,
            decreases self.tags@.len() - i,
        {
            if self.tags[i] == *tag {
                return i;
            }
            i = i + 1;
        }
        proof {
            let k = choose|k: int| 0 <= k < self.tag_views().len() && self.tag_views()[k] == tag@;
            assert(self.tag_views()[k] != tag@);
        }
        self.tags.len()
    }
}

/// The activity log that every entity keeps.
pub trait Scaffolding {
    /// The activity log, oldest first.
    spec fn activity_log(&self) -> Seq<ActivityItem>;

    /// Appends an activity item for `name`, stamped now.
    fn log_activity(&mut self, name: String, descr: String)
        ensures
            final(self).activity_log().len() == old(self).activity_log().len() + 1,
            final(self).activity_log().take(old(self).activity_log().len() as int) == old(self).activity_log(),
            final(self).activity_log().last().action == name,
            final(self).activity_log().last().description == descr,
    ;

    /// The activity items of action `name`, in log order.
    fn get_activity(&self, name: String) -> (r: Vec<ActivityItem>)
        ensures
            r@ == self.activity_log().filter(|a: ActivityItem| a.action@ == name@),
    ;
}

impl Scaffolding for Entity {
    open spec fn activity_log(&self) -> Seq<ActivityItem> {
        self.activity@
    }

    fn log_activity(&mut self, name: String, descr: String)
        ensures
            *final(self) == (Entity { activity: final(self).activity, ..*old(self) }),
    {
        let item = ActivityItem::new(name, descr);
        self.activity.push(item);
        assert(self.activity@.take(self.activity@.len() - 1) =~= old(self).activity@);
    }

    fn get_activity(&self, name: String) -> (r: Vec<ActivityItem>)
    {
        let ghost p = |a: ActivityItem| a.action@ == name@;
        let mut r: Vec<ActivityItem> = Vec::new();
        let mut i: usize = 0;
        while i < self.activity.len()
            invariant
                0 <= i <= self.activity@.len(),
                p == (|a: ActivityItem| a.action@ == name@),
                r@ == self.activity@.take(i as int).filter(p),
            decreases self.activity@.len() - i,
        {
            let ghost before = self.activity@.take(i as int);
            let ghost after = self.activity@.take(i + 1);
            assert(after.drop_last() =~= before);
            assert(after.last() == self.activity@[i as int]);
            if self.activity[i].action == name {
                r.push(self.activity[i].clone());
            }
            assert(after =~= before.push(after.last()));
            proof {
                before.lemma_filter_push(after.last(), p);
            }
            i = i + 1;
        }
        assert(self.activity@.take(i as int) =~= self.activity@);
        r
    }
}

/// Addresses, kept by identifier.
pub trait ScaffoldingAddresses {
    /// The addresses by identifier.
    spec fn address_map(&self) -> KeyedMap<Address>;

    /// The address under `id`, if any.
    fn get_address(&self, id: String) -> (r: Option<&Address>)
        ensures
            match r {
                Some(a) => self.address_map().maps_to(id@, *a),
                None => !self.address_map().contains_key(id@),
            },
    ;

    /// Adds a new address with a fresh identifier, which it returns.
    fn insert_address(
        &mut self,
        category: String,
        line_1: String,
        line_2: String,
        line_3: String,
        line_4: String,
        country_code: String,
    ) -> (r: String)
        requires
            old(self).address_map().wf(),
        ensures
            final(self).address_map().wf(),
            is_uuid_text(r@),
            exists|a: Address|
                {
                    &&& a.id == r
                    &&& a.wf()
                    &&& a.category == category
                    &&& a.line_1 == line_1
                    &&& a.line_2 == line_2
                    &&& a.line_3 == line_3
                    &&& a.line_4 == line_4
                    &&& a.country_code == country_code
                    &&& #[trigger] KeyedMap::put(old(self).address_map(), final(self).address_map(), r@, a)
                },
    ;

    /// Updates the address under `id` in place, if there is one.
    fn modify_address(
        &mut self,
        id: String,
        category: String,
        line_1: String,
        line_2: String,
        line_3: String,
        line_4: String,
        country_code: String,
    )
        requires
            old(self).address_map().wf(),
        ensures
            final(self).address_map().wf(),
            !old(self).address_map().contains_key(id@) ==> final(self).address_map().entries() == old(self).address_map().entries(),
            old(self).address_map().contains_key(id@) ==> exists|i: int, a: Address|
                {
                    &&& 0 <= i < old(self).address_map().entries().len()
                    &&& old(self).address_map().keys()[i] == id@
                    &&& address_updated(
                        old(self).address_map().values()[i],
                        a,
                        category,
                        line_1,
                        line_2,
                        line_3,
                        line_4,
                        country_code,
                    )
                    &&& #[trigger] final(self).address_map().entries() == old(self).address_map().entries().update(i, (id@, a))
                },
    ;

    /// The addresses of `category`, in identifier order.
    fn search_addresses_by_category(&self, category: String) -> (r: Vec<Address>)
        ensures
            r@ == self.address_map().values().filter(|a: Address| a.category@ == category@),
    ;

    /// Removes the address under `id`; nothing changes if there is none.
    fn remove_address(&mut self, id: String)
        requires
            old(self).address_map().wf(),
        ensures
            final(self).address_map().wf(),
            KeyedMap::dropped(old(self).address_map(), final(self).address_map(), id@),
    ;
}

impl ScaffoldingAddresses for Entity {
    open spec fn address_map(&self) -> KeyedMap<Address> {
        self.addresses
    }

    fn get_address(&self, id: String) -> (r: Option<&Address>)
    {
        self.addresses.get(&id)
    }

    fn insert_address(
        &mut self,
        category: String,
        line_1: String,
        line_2: String,
        line_3: String,
        line_4: String,
        country_code: String,
    ) -> (r: String)
        ensures
            *final(self) == (Entity { addresses: final(self).addresses, ..*old(self) }),
    {
        let address = Address::new(category, line_1, line_2, line_3, line_4, country_code);
        let id = address.id.clone();
        let ghost a = address;
        self.addresses.insert(id.clone(), address);
        assert(KeyedMap::put(old(self).address_map(), self.address_map(), id@, a));
        id
    }

    fn modify_address(
        &mut self,
        id: String,
        category: String,
        line_1: String,
        line_2: String,
        line_3: String,
        line_4: String,
        country_code: String,
    )
        ensures
            *final(self) == (Entity { addresses: final(self).addresses, ..*old(self) }),
    {
        match self.addresses.find(&id) {
            Some(i) => {
                let mut a = self.addresses.value_at(i).clone();
                a.update(category, line_1, line_2, line_3, line_4, country_code);
                let ghost na = a;
                self.addresses.replace_value(i, a);
                assert(final(self).addresses.entries() == old(self).addresses.entries().update(
                    i as int,
                    (id@, na),
                ));
            },
            None => {},
        }
    }

    fn search_addresses_by_category(&self, category: String) -> (r: Vec<Address>)
    {
        let ghost p = |a: Address| a.category@ == category@;
        let ghost vals = self.addresses.values();
        let mut r: Vec<Address> = Vec::new();
        let mut i: usize = 0;
        while i < self.addresses.len()
            invariant
                0 <= i <= vals.len(),
                vals == self.addresses.values(),
                p == (|a: Address| a.category@ == category@),
                r@ == vals.take(i as int).filter(p),
            decreases vals.len() - i,
        {
            let ghost before = vals.take(i as int);
            let ghost after = vals.take(i + 1);
            assert(after.drop_last() =~= before);
            assert(after.last() == vals[i as int]);
            let a = self.addresses.value_at(i);
            if a.category == category {
                r.push(a.clone());
            }
            assert(after =~= before.push(after.last()));
            proof {
                before.lemma_filter_push(after.last(), p);
            }
            i = i + 1;
        }
        assert(vals.take(i as int) =~= vals);
        r
    }

    fn remove_address(&mut self, id: String)
        ensures
            *final(self) == (Entity { addresses: final(self).addresses, ..*old(self) }),
    {
        self.addresses.remove(&id);
    }
}

/// E-mail addresses, kept by identifier.
pub trait ScaffoldingEmailAddresses {
    /// The e-mail addresses by identifier.
    spec fn email_address_map(&self) -> KeyedMap<EmailAddress>;

    /// The e-mail address under `id`, if any.
    fn get_email_address(&self, id: String) -> (r: Option<&EmailAddress>)
        ensures
            match r {
                Some(e) => self.email_address_map().maps_to(id@, *e),
                None => !self.email_address_map().contains_key(id@),
            },
    ;

    /// Adds a new e-mail address with a fresh identifier, which it returns.
    fn insert_email_address(&mut self, category: String, address: String) -> (r: String)
        requires
            old(self).email_address_map().wf(),
        ensures
            final(self).email_address_map().wf(),
            is_uuid_text(r@),
            exists|e: EmailAddress|
                {
                    &&& e.id == r
                    &&& e.created_dtm == e.modified_dtm
                    &&& e.category == category
                    &&& e.address == address
                    &&& #[trigger] KeyedMap::put(
                        old(self).email_address_map(),
                        final(self).email_address_map(),
                        r@,
                        e,
                    )
                },
    ;

    /// The e-mail addresses of `category`, in identifier order.
    fn search_email_addresses_by_category(&self, category: String) -> (r: Vec<EmailAddress>)
        ensures
            r@ == self.email_address_map().values().filter(
                |e: EmailAddress| e.category@ == category@,
            ),
    ;

    /// Removes the e-mail address under `id`; nothing changes if there is none.
    fn remove_email_address(&mut self, id: String)
        requires
            old(self).email_address_map().wf(),
        ensures
            final(self).email_address_map().wf(),
            KeyedMap::dropped(old(self).email_address_map(), final(self).email_address_map(), id@),
    ;
}

impl ScaffoldingEmailAddresses for Entity {
    open spec fn email_address_map(&self) -> KeyedMap<EmailAddress> {
        self.email_addresses
    }

    fn get_email_address(&self, id: String) -> (r: Option<&EmailAddress>)
    {
        self.email_addresses.get(&id)
    }

    fn insert_email_address(&mut self, category: String, address: String) -> (r: String)
        ensures
            *final(self) == (Entity { email_addresses: final(self).email_addresses, ..*old(self) }),
    {
        let email = EmailAddress::new(category, address);
        let id = email.id.clone();
        let ghost e = email;
        self.email_addresses.insert(id.clone(), email);
        assert(KeyedMap::put(old(self).email_address_map(), self.email_address_map(), id@, e));
        id
    }

    fn search_email_addresses_by_category(&self, category: String) -> (r: Vec<EmailAddress>)
    {
        let ghost p = |e: EmailAddress| e.category@ == category@;
        let ghost vals = self.email_addresses.values();
        let mut r: Vec<EmailAddress> = Vec::new();
        let mut i: usize = 0;
        while i < self.email_addresses.len()
            invariant
                0 <= i <= vals.len(),
                vals == self.email_addresses.values(),
                p == (|e: EmailAddress| e.category@ == category@),
                r@ == vals.take(i as int).filter(p),
            decreases vals.len() - i,
        {
            let ghost before = vals.take(i as int);
            let ghost after = vals.take(i + 1);
            assert(after.drop_last() =~= before);
            assert(after.last() == vals[i as int]);
            let e = self.email_addresses.value_at(i);
            if e.category == category {
                r.push(e.clone());
            }
            assert(after =~= before.push(after.last()));
            proof {
                before.lemma_filter_push(after.last(), p);
            }
            i = i + 1;
        }
        assert(vals.take(i as int) =~= vals);
        r
    }

    fn remove_email_address(&mut self, id: String)
        ensures
            *final(self) == (Entity { email_addresses: final(self).email_addresses, ..*old(self) }),
    {
        self.email_addresses.remove(&id);
    }
}

/// Phone numbers, kept by identifier.
pub trait ScaffoldingPhoneNumbers {
    /// The phone numbers by identifier.
    spec fn phone_number_map(&self) -> KeyedMap<PhoneNumber>;

    /// The phone number under `id`, if any.
    fn get_phone_number(&self, id: String) -> (r: Option<&PhoneNumber>)
        ensures
            match r {
                Some(p) => self.phone_number_map().maps_to(id@, *p),
                None => !self.phone_number_map().contains_key(id@),
            },
    ;

    /// Adds a new phone number with a fresh identifier, which it returns.
    fn insert_phone_number(&mut self, category: String, number: String, country_code: String) -> (r:
        String)
        requires
            old(self).phone_number_map().wf(),
        ensures
            final(self).phone_number_map().wf(),
            is_uuid_text(r@),
            exists|p: PhoneNumber|
                {
                    &&& p.id == r
                    &&& p.created_dtm == p.modified_dtm
                    &&& p.category == category
                    &&& p.number == number
                    &&& p.country_code == country_code
                    &&& #[trigger] KeyedMap::put(
                        old(self).phone_number_map(),
                        final(self).phone_number_map(),
                        r@,
                        p,
                    )
                },
    ;

    /// The phone numbers of `category`, in identifier order.
    fn search_phone_numbers_by_category(&self, category: String) -> (r: Vec<PhoneNumber>)
        ensures
            r@ == self.phone_number_map().values().filter(|p: PhoneNumber| p.category@ == category@),
    ;

    /// Removes the phone number under `id`; nothing changes if there is none.
    fn remove_phone_number(&mut self, id: String)
        requires
            old(self).phone_number_map().wf(),
        ensures
            final(self).phone_number_map().wf(),
            KeyedMap::dropped(old(self).phone_number_map(), final(self).phone_number_map(), id@),
    ;
}

impl ScaffoldingPhoneNumbers for Entity {
    open spec fn phone_number_map(&self) -> KeyedMap<PhoneNumber> {
        self.phone_numbers
    }

    fn get_phone_number(&self, id: String) -> (r: Option<&PhoneNumber>)
    {
        self.phone_numbers.get(&id)
    }

    fn insert_phone_number(&mut self, category: String, number: String, country_code: String) -> (r:
        String)
        ensures
            *final(self) == (Entity { phone_numbers: final(self).phone_numbers, ..*old(self) }),
    {
        let phone = PhoneNumber::new(category, number, country_code);
        let id = phone.id.clone();
        let ghost p = phone;
        self.phone_numbers.insert(id.clone(), phone);
        assert(KeyedMap::put(old(self).phone_number_map(), self.phone_number_map(), id@, p));
        id
    }

    fn search_phone_numbers_by_category(&self, category: String) -> (r: Vec<PhoneNumber>)
    {
        let ghost p = |n: PhoneNumber| n.category@ == category@;
        let ghost vals = self.phone_numbers.values();
        let mut r: Vec<PhoneNumber> = Vec::new();
        let mut i: usize = 0;
        while i < self.phone_numbers.len()
            invariant
                0 <= i <= vals.len(),
                vals == self.phone_numbers.values(),
                p == (|n: PhoneNumber| n.category@ == category@),
                r@ == vals.take(i as int).filter(p),
            decreases vals.len() - i,
        {
            let ghost before = vals.take(i as int);
            let ghost after = vals.take(i + 1);
            assert(after.drop_last() =~= before);
            assert(after.last() == vals[i as int]);
            let n = self.phone_numbers.value_at(i);
            if n.category == category {
                r.push(n.clone());
            }
            assert(after =~= before.push(after.last()));
            proof {
                before.lemma_filter_push(after.last(), p);
            }
            i = i + 1;
        }
        assert(vals.take(i as int) =~= vals);
        r
    }

    fn remove_phone_number(&mut self, id: String)
        ensures
            *final(self) == (Entity { phone_numbers: final(self).phone_numbers, ..*old(self) }),
    {
        self.phone_numbers.remove(&id);
    }
}

/// Notes, kept by identifier.
pub trait ScaffoldingNotes {
    /// The notes by identifier.
    spec fn note_map(&self) -> KeyedMap<Note>;

    /// The note under `id`, if any.
    fn get_note(&self, id: String) -> (r: Option<&Note>)
        ensures
            match r {
                Some(n) => self.note_map().maps_to(id@, *n),
                None => !self.note_map().contains_key(id@),
            },
    ;

    /// Adds a new note with a fresh identifier, which it returns; without an
    /// access level the note is `public`.
    fn insert_note(&mut self, auth: String, cont: Vec<u8>, acc: Option<String>) -> (r: String)
        requires
            old(self).note_map().wf(),
        ensures
            final(self).note_map().wf(),
            is_uuid_text(r@),
            exists|n: Note|
                {
                    &&& n.id == r
                    &&& n.created_dtm == n.modified_dtm
                    &&& n.author == auth
                    &&& n.content == cont
                    &&& n.access@ == match acc {
                        Some(a) => a@,
                        None => default_access(),
                    }
                    &&& #[trigger] KeyedMap::put(old(self).note_map(), final(self).note_map(), r@, n)
                },
    ;

    /// Updates the note under `id` in place, if there is one; without an
    /// access level the note keeps its own.
    fn modify_note(&mut self, id: String, auth: String, cont: Vec<u8>, acc: Option<String>)
        requires
            old(self).note_map().wf(),
        ensures
            final(self).note_map().wf(),
            !old(self).note_map().contains_key(id@) ==> final(self).note_map().entries() == old(self).note_map().entries(),
            old(self).note_map().contains_key(id@) ==> exists|i: int, n: Note|
                {
                    &&& 0 <= i < old(self).note_map().entries().len()
                    &&& old(self).note_map().keys()[i] == id@
                    &&& note_updated(old(self).note_map().values()[i], n, auth, cont@, acc)
                    &&& #[trigger] final(self).note_map().entries() == old(self).note_map().entries().update(i, (id@, n))
                },
    ;

    /// The notes whose content, read as text, holds `search`, in identifier
    /// order; content that is not valid UTF-8 is read with U+FFFD in place
    /// of each invalid sequence.
    fn search_notes(&self, search: String) -> (r: Vec<Note>)
        ensures
            ({
                let found = self.note_map().values().filter(
                    |n: Note| occurs_in(search@, lossy_text(n.content@)),
                );
                &&& r@.len() == found.len()
                &&& forall|i: int| 0 <= i < found.len() ==> (#[trigger] r@[i]).same_as(found[i])
            }),
    ;

    /// Removes the note under `id`; nothing changes if there is none.
    fn remove_note(&mut self, id: String)
        requires
            old(self).note_map().wf(),
        ensures
            final(self).note_map().wf(),
            KeyedMap::dropped(old(self).note_map(), final(self).note_map(), id@),
    ;
}

impl ScaffoldingNotes for Entity {
    open spec fn note_map(&self) -> KeyedMap<Note> {
        self.notes
    }

    fn get_note(&self, id: String) -> (r: Option<&Note>)
    {
        self.notes.get(&id)
    }

    fn insert_note(&mut self, auth: String, cont: Vec<u8>, acc: Option<String>) -> (r: String)
        ensures
            *final(self) == (Entity { notes: final(self).notes, ..*old(self) }),
    {
        let note = Note::new(auth, cont, acc);
        let id = note.id.clone();
        let ghost n = note;
        self.notes.insert(id.clone(), note);
        assert(KeyedMap::put(old(self).note_map(), self.note_map(), id@, n));
        id
    }

    fn modify_note(&mut self, id: String, auth: String, cont: Vec<u8>, acc: Option<String>)
        ensures
            *final(self) == (Entity { notes: final(self).notes, ..*old(self) }),
    {
        let ghost cv = cont@;
        match self.notes.find(&id) {
            Some(i) => {
                let mut n = self.notes.value_at(i).clone();
                n.update(auth, cont, acc);
                let ghost nn = n;
                self.notes.replace_value(i, n);
                assert(final(self).notes.entries() == old(self).notes.entries().update(
                    i as int,
                    (id@, nn),
                ));
            },
            None => {},
        }
    }

    fn search_notes(&self, search: String) -> (r: Vec<Note>)
    {
        let ghost p = |n: Note| occurs_in(search@, lossy_text(n.content@));
        let ghost vals = self.notes.values();
        let mut r: Vec<Note> = Vec::new();
        let mut i: usize = 0;
        while i < self.notes.len()
            invariant
                0 <= i <= vals.len(),
                vals == self.notes.values(),
                p == (|n: Note| occurs_in(search@, lossy_text(n.content@))),
                r@.len() == vals.take(i as int).filter(p).len(),
                forall|j: int|
                    0 <= j < r@.len() ==> (#[trigger] r@[j]).same_as(
                        vals.take(i as int).filter(p)[j],
                    ),
            decreases vals.len() - i,
        {
            let ghost before = vals.take(i as int);
            let ghost after = vals.take(i + 1);
            assert(after =~= before.push(vals[i as int]));
            proof {
                before.lemma_filter_push(vals[i as int], p);
            }
            let n = self.notes.value_at(i);
            let text = n.content_text();
            if text_contains(text.as_str(), search.as_str()) {
                r.push(n.clone());
            }
            i = i + 1;
        }
        assert(vals.take(i as int) =~= vals);
        r
    }

    fn remove_note(&mut self, id: String)
        ensures
            *final(self) == (Entity { notes: final(self).notes, ..*old(self) }),
    {
        self.notes.remove(&id);
    }
}

/// Tags: distinct strings in the order they were added.
pub trait ScaffoldingTags {
    /// The tags as text, in order.
    spec fn tag_list(&self) -> Seq<Seq<char>>;

    /// Appends `tag` unless it is already there.
    fn add_tag(&mut self, tag: String)
        ensures
            final(self).tag_list() == tags_after_add(old(self).tag_list(), tag@),
    ;

    /// Whether `tag` is there.
    fn has_tag(&self, tag: String) -> (r: bool)
        ensures
            r == self.tag_list().contains(tag@),
    ;

    /// Removes the first occurrence of `tag`, which must be there.
    fn remove_tag(&mut self, tag: String)
        requires
            old(self).tag_list().contains(tag@),
        ensures
            final(self).tag_list() == tags_after_remove(old(self).tag_list(), tag@),
    ;
}

impl ScaffoldingTags for Entity {
    open spec fn tag_list(&self) -> Seq<Seq<char>> {
        self.tag_views()
    }

    fn add_tag(&mut self, tag: String)
        ensures
            *final(self) == (Entity { tags: final(self).tags, ..*old(self) }),
    {
        if !self.has_tag(tag.clone()) {
            let ghost t = tag@;
            self.tags.push(tag);
            assert(self.tag_views() =~= old(self).tag_views().push(t));
        }
    }

    fn has_tag(&self, tag: String) -> (r: bool)
    {
        let mut i: usize = 0;
        while i < self.tags.len()
            invariant
                0 <= i <= self.tags@.len(),
                forall|j: int| 0 <= j < i ==> self.tag_views()[j] != tag@,
            decreases self.tags@.len() - i,
        {
            if self.tags[i] == tag {
                assert(self.tag_views()[i as int] == tag@);
                return true;
            }
            i = i + 1;
        }
        false
    }

    fn remove_tag(&mut self, tag: String)
        ensures
            *final(self) == (Entity { tags: final(self).tags, ..*old(self) }),
    {
        let ghost views = self.tag_views();
        let i = self.tag_position(&tag);
        proof {
            views.index_of_first_ensures(tag@);
        }
        self.tags.remove(i);
        assert(self.tag_views() =~= views.remove(i as int));
    }
}

} // verus!
