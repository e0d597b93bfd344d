//! The bestiary registry: per-species catalog status and status-gated views.

use crate::identity::Id;
use crate::identity::Name;
use core::marker::PhantomData;
use vstd::hash_map::HashMapWithView;
use vstd::prelude::*;

verus! {

/// The descriptive data a species exposes to the bestiary: category,
/// description, weight and height, and three named attributes (color, shape,
/// habitat). The `spec_` functions are the mathematical values of the string
/// and numeric attributes; the executable getters must return exactly them.
pub trait BestiarySpeciesData<T, U, V> where T: Name, U: Name, V: Name {
    /// The category, as a sequence of characters.
    spec fn spec_category(&self) -> Seq<char>;

    /// The description, as a sequence of characters.
    spec fn spec_description(&self) -> Seq<char>;

    /// The weight in hectograms, as a mathematical value.
    spec fn spec_weight(&self) -> u16;

    /// The height in decimeters, as a mathematical value.
    spec fn spec_height(&self) -> u16;

    /// Returns the species' category.
    fn category(&self) -> (r: &str)
        ensures
            r@ == self.spec_category(),
    ;

    /// Returns the species' description.
    fn description(&self) -> (r: &str)
        ensures
            r@ == self.spec_description(),
    ;

    /// Returns the species' weight in hectograms.
    fn weight_in_hectograms(&self) -> (r: u16)
        ensures
            r == self.spec_weight(),
    ;

    /// Returns the species' height in decimeters.
    fn height_in_decimeters(&self) -> (r: u16)
        ensures
            r == self.spec_height(),
    ;

    /// Returns the species' color.
    fn color(&self) -> &T;

    /// Returns the species' shape.
    fn shape(&self) -> &U;

    /// Returns the species' habitat.
    fn habitat(&self) -> &V;
}

/// A full species: descriptive data together with an id and a name.
pub trait Species<T, U, V>: BestiarySpeciesData<T, U, V> + Id + Name where
    T: Name,
    U: Name,
    V: Name,
{
}

/// The catalog status of one species: never encountered, seen, or owned.
#[derive(Clone, Copy, Debug, PartialEq, Eq, Structural)]
pub enum Status {
    /// The species has never been encountered.
    Unseen,
    /// The species has been seen but not captured.
    Seen,
    /// The species has been captured.
    Owned,
}

/// The part of a species' data revealed once it has been seen: its display
/// name only.
pub struct SeenEntry<'a> {
    /// The species' display name.
    pub name: &'a str,
}

/// The part of a species' data revealed once it is owned: the full
/// descriptive attributes.
pub struct OwnedEntry<'a> {
    /// The species' category.
    pub category: &'a str,
    /// The species' description.
    pub description: &'a str,
    /// The species' weight in hectograms.
    pub weight_in_hectograms: u16,
    /// The species' height in decimeters.
    pub height_in_decimeters: u16,
}

/// An ephemeral, read-only projection of one species' record, produced on
/// demand by [`Bestiary::view_species`]. The projections present are gated
/// by the status: `seen_entry` is present exactly when the status is `Seen`
/// or `Owned`, and `owned_entry` exactly when it is `Owned`.
pub struct Entry<'a> {
    /// The species' current catalog status.
    pub status: Status,
    /// The name projection, present once the species has been seen.
    pub seen_entry: Option<SeenEntry<'a>>,
    /// The full-data projection, present once the species is owned.
    pub owned_entry: Option<OwnedEntry<'a>>,
}

/// The registry: an id -> species index built once at construction, and an
/// id -> status map advanced by [`Bestiary::see`] and [`Bestiary::own`].
/// The two maps always cover exactly the same ids.
#[verifier::reject_recursive_types(S)]
pub struct Bestiary<'a, S, T, U, V> where
    S: BestiarySpeciesData<T, U, V> + Id + Name,
    T: Name,
    U: Name,
    V: Name,
{
    species: HashMapWithView<u32, &'a S>,
    species_statuses: HashMapWithView<u32, Status>,
    // PhantomData to reconcile type parameters that appear only in the
    // bound on S.
    phantom_t: PhantomData<T>,
    phantom_u: PhantomData<U>,
    phantom_v: PhantomData<V>,
}

/// The id -> species index that registering `list` in order builds: each
/// species is keyed by its id, and a later entry with the same id overwrites
/// an earlier one (last-write-wins).
pub open spec fn species_index_of<'a, S, T, U, V>(list: Seq<&'a S>) -> Map<u32, &'a S> where
    S: BestiarySpeciesData<T, U, V> + Id + Name,
    T: Name,
    U: Name,
    V: Name,
    decreases list.len(),
{
    if list.len() == 0 {
        Map::empty()
    } else {
        species_index_of(list.drop_last()).insert(list.last().spec_id(), list.last())
    }
}

/// The set of ids that the species in `list` carry.
pub open spec fn listed_ids<'a, S, T, U, V>(list: Seq<&'a S>) -> Set<u32> where
    S: BestiarySpeciesData<T, U, V> + Id + Name,
    T: Name,
    U: Name,
    V: Name,
    decreases list.len(),
{
    if list.len() == 0 {
        Set::empty()
    } else {
        listed_ids(list.drop_last()).insert(list.last().spec_id())
    }
}

/// The index of a registration list covers exactly the listed ids.
pub proof fn lemma_species_index_dom<'a, S, T, U, V>(list: Seq<&'a S>) where
    S: BestiarySpeciesData<T, U, V> + Id + Name,
    T: Name,
    U: Name,
    V: Name,
    ensures
        species_index_of(list).dom() =~= listed_ids(list),
    decreases list.len(),
{
    if list.len() > 0 {
        lemma_species_index_dom(list.drop_last());
    }
}

/// An id is listed exactly when some species in the list carries it.
pub proof fn lemma_listed_ids_contains<'a, S, T, U, V>(list: Seq<&'a S>, id: u32) where
    S: BestiarySpeciesData<T, U, V> + Id + Name,
    T: Name,
    U: Name,
    V: Name,
    ensures
        listed_ids(list).contains(id) <==> exists|i: int|
            0 <= i < list.len() && #[trigger] list[i].spec_id() == id,
    decreases list.len(),
{
    if list.len() > 0 {
        lemma_listed_ids_contains(list.drop_last(), id);
        if listed_ids(list).contains(id) {
            if list.last().spec_id() == id {
                assert(list[list.len() - 1].spec_id() == id);
            } else {
                let i = choose|i: int|
                    0 <= i < list.drop_last().len() && #[trigger] list.drop_last()[i].spec_id()
                        == id;
                assert(list[i].spec_id() == id);
            }
        }
        if exists|i: int| 0 <= i < list.len() && #[trigger] list[i].spec_id() == id {
            let i = choose|i: int| 0 <= i < list.len() && #[trigger] list[i].spec_id() == id;
            if i < list.len() - 1 {
                assert(list.drop_last()[i].spec_id() == id);
            }
        }
    }
}

/// What one `see` event does to the status map: an id recorded as `Unseen`
/// advances to `Seen`; any other id — already seen, already owned, or not
/// recorded at all — is left unchanged.
pub open spec fn see_step(statuses: Map<u32, Status>, id: u32) -> Map<u32, Status> {
    if statuses.dom().contains(id) && statuses[id] == Status::Unseen {
        statuses.insert(id, Status::Seen)
    } else {
        statuses
    }
}

/// What one `own` event does to the status map: an id recorded with any
/// status other than `Owned` advances to `Owned`; an id already `Owned`, or
/// not recorded at all, is left unchanged.
pub open spec fn own_step(statuses: Map<u32, Status>, id: u32) -> Map<u32, Status> {
    if statuses.dom().contains(id) && statuses[id] != Status::Owned {
        statuses.insert(id, Status::Owned)
    } else {
        statuses
    }
}

/// The rank of a status in the progression `Unseen -> Seen -> Owned`.
pub open spec fn status_rank(s: Status) -> nat {
    match s {
        Status::Unseen => 0,
        Status::Seen => 1,
        Status::Owned => 2,
    }
}

/// Law: seeing is idempotent. A second `see` of the same id yields exactly
/// the state the first one left, and a `see` of an id recorded as `Unseen`
/// records it as `Seen`.
pub proof fn lemma_see_idempotent(statuses: Map<u32, Status>, id: u32)
    ensures
        see_step(see_step(statuses, id), id) == see_step(statuses, id),
        statuses.dom().contains(id) && statuses[id] == Status::Unseen ==> see_step(statuses, id)[id]
            == Status::Seen,
{
}

/// Law: owning is absorbing. However many `own` events an id receives, the
/// state after the first is the state after them all, and an id that is
/// recorded at all ends recorded as `Owned`.
pub proof fn lemma_own_absorbing(statuses: Map<u32, Status>, id: u32)
    ensures
        own_step(own_step(statuses, id), id) == own_step(statuses, id),
        statuses.dom().contains(id) ==> own_step(statuses, id)[id] == Status::Owned,
{
}

/// The status map after `n` successive `own` events for `id`.
pub open spec fn own_steps(statuses: Map<u32, Status>, id: u32, n: nat) -> Map<u32, Status>
    decreases n,
{
    if n == 0 {
        statuses
    } else {
        own_step(own_steps(statuses, id, (n - 1) as nat), id)
    }
}

/// Law: owning any number of times (at least once), from any starting
/// state, leaves exactly the state one `own` leaves; the id ends recorded
/// as `Owned` whenever it is recorded at all, and a subsequent `see` is a
/// no-op.
pub proof fn lemma_own_many_times(statuses: Map<u32, Status>, id: u32, n: nat)
    requires
        n >= 1,
    ensures
        own_steps(statuses, id, n) == own_step(statuses, id),
        statuses.dom().contains(id) ==> own_steps(statuses, id, n)[id] == Status::Owned,
        see_step(own_steps(statuses, id, n), id) == own_steps(statuses, id, n),
    decreases n,
{
    if n == 1 {
        assert(own_steps(statuses, id, 0) == statuses);
    } else {
        lemma_own_many_times(statuses, id, (n - 1) as nat);
        lemma_own_absorbing(statuses, id);
    }
    lemma_see_after_own(statuses, id);
}

/// Law: after an `own`, a `see` of the same id is a no-op — the status does
/// not regress from `Owned`.
pub proof fn lemma_see_after_own(statuses: Map<u32, Status>, id: u32)
    ensures
        see_step(own_step(statuses, id), id) == own_step(statuses, id),
{
}

/// Law: events on an id that was never registered change nothing — neither
/// `see` nor `own` inserts a new entry.
pub proof fn lemma_unknown_id_ignored(statuses: Map<u32, Status>, id: u32)
    requires
        !statuses.dom().contains(id),
    ensures
        see_step(statuses, id) == statuses,
        own_step(statuses, id) == statuses,
{
}

/// Law: no status regresses. Both events keep the set of recorded ids, and
/// the status recorded for any id never goes down the progression
/// `Unseen -> Seen -> Owned`.
pub proof fn lemma_no_regression(statuses: Map<u32, Status>, id: u32, other: u32)
    requires
        statuses.dom().contains(other),
    ensures
        see_step(statuses, id).dom() =~= statuses.dom(),
        own_step(statuses, id).dom() =~= statuses.dom(),
        status_rank(see_step(statuses, id)[other]) >= status_rank(statuses[other]),
        status_rank(own_step(statuses, id)[other]) >= status_rank(statuses[other]),
{
}

impl<'a, S, T, U, V> Bestiary<'a, S, T, U, V> where
    S: BestiarySpeciesData<T, U, V> + Id + Name,
    T: Name,
    U: Name,
    V: Name,
{
    /// The id -> species index, as a mathematical map.
    pub closed spec fn species_view(&self) -> Map<u32, &'a S> {
        self.species@
    }

    /// The id -> status map, as a mathematical map.
    pub closed spec fn statuses_view(&self) -> Map<u32, Status> {
        self.species_statuses@
    }

    /// Well-formedness: the species index and the status map cover exactly
    /// the same ids. Established by `new` and preserved by `see` and `own`.
    pub open spec fn wf(&self) -> bool {
        self.statuses_view().dom() =~= self.species_view().dom()
    }

    /// Whether `id` was registered at construction.
    pub open spec fn knows(&self, id: u32) -> bool {
        self.species_view().dom().contains(id)
    }

    /// The status recorded for `id`; an id without a recorded status reads
    /// as `Unseen`.
    pub open spec fn status_of(&self, id: u32) -> Status {
        if self.statuses_view().dom().contains(id) {
            self.statuses_view()[id]
        } else {
            Status::Unseen
        }
    }

    /// Builds a registry from a list of species references: each species is
    /// indexed by its id with status `Unseen`. A later entry with a
    /// duplicate id silently overwrites the earlier one.
    pub fn new(species_list: Vec<&'a S>) -> (result: Bestiary<'a, S, T, U, V>)
        ensures
            result.wf(),
            result.species_view() == species_index_of(species_list@),
            result.species_view().dom() =~= listed_ids(species_list@),
            forall|id: u32| result.knows(id) ==> result.status_of(id) == Status::Unseen,
    {
        let mut species_map: HashMapWithView<u32, &'a S> = HashMapWithView::new();
        let mut species_statuses_map: HashMapWithView<u32, Status> = HashMapWithView::new();
        for i in 0..species_list.len()
            invariant
                species_map@ == species_index_of(species_list@.take(i as int)),
                species_statuses_map@.dom() =~= species_map@.dom(),
                forall|id: u32| #[trigger]
                    species_statuses_map@.dom().contains(id) ==> species_statuses_map@[id]
                        == Status::Unseen,
        {
            let species = species_list[i];
            species_map.insert(species.id(), species);
            species_statuses_map.insert(species.id(), Status::Unseen);
            proof {
                assert(species_list@.take(i + 1).drop_last() =~= species_list@.take(i as int));
                assert(species_list@.take(i + 1).last() == species_list@[i as int]);
            }
        }
        proof {
            assert(species_list@.take(species_list@.len() as int) =~= species_list@);
            lemma_species_index_dom(species_list@);
        }
        Bestiary {
            species: species_map,
            species_statuses: species_statuses_map,
            phantom_t: PhantomData,
            phantom_u: PhantomData,
            phantom_v: PhantomData,
        }
    }

    /// Renders the status-gated projection of the species registered under
    /// `id`, or nothing if that id is unknown. An `Unseen` species shows no
    /// data, a `Seen` species its name, an `Owned` species its name and its
    /// full descriptive attributes. Pure read: the registry is unchanged.
    pub fn view_species(&self, id: &u32) -> (entry: Option<Entry>)
        ensures
            entry.is_some() <==> self.knows(*id),
            entry.is_some() ==> {
                let e = entry.unwrap();
                let species = self.species_view()[*id];
                &&& e.status == self.status_of(*id)
                &&& (e.seen_entry.is_some() <==> self.status_of(*id) != Status::Unseen)
                &&& (e.owned_entry.is_some() <==> self.status_of(*id) == Status::Owned)
                &&& e.seen_entry.is_some() ==> e.seen_entry.unwrap().name@ == species.spec_name()
                &&& e.owned_entry.is_some() ==> {
                    let oe = e.owned_entry.unwrap();
                    &&& oe.category@ == species.spec_category()
                    &&& oe.description@ == species.spec_description()
                    &&& oe.weight_in_hectograms == species.spec_weight()
                    &&& oe.height_in_decimeters == species.spec_height()
                }
            },
    {
        // A status lookup miss for a registered id cannot occur in a
        // well-formed registry; it is read defensively as Unseen.
        let status: Status = match self.species_statuses.get(id) {
            Some(s) => *s,
            None => Status::Unseen,
        };
        match self.species.get(id) {
            None => None,
            Some(species) => match status {
                Status::Unseen => Some(
                    Entry { status, seen_entry: None, owned_entry: None },
                ),
                Status::Seen => Some(
                    Entry {
                        status,
                        seen_entry: Some(SeenEntry { name: species.name() }),
                        owned_entry: None,
                    },
                ),
                Status::Owned => Some(
                    Entry {
                        status,
                        seen_entry: Some(SeenEntry { name: species.name() }),
                        owned_entry: Some(
                            OwnedEntry {
                                category: species.category(),
                                description: species.description(),
                                weight_in_hectograms: species.weight_in_hectograms(),
                                height_in_decimeters: species.height_in_decimeters(),
                            },
                        ),
                    },
                ),
            },
        }
    }

    /// Records that `species` has been seen: a status of `Unseen` advances
    /// to `Seen`, any other status is kept, and a species whose id was never
    /// registered is silently ignored. The species index is unchanged, so
    /// well-formedness is preserved.
    pub fn see<W>(&mut self, species: &W) where W: BestiarySpeciesData<T, U, V> + Id + Name
        ensures
            final(self).species_view() == old(self).species_view(),
            final(self).statuses_view() == see_step(
                old(self).statuses_view(),
                species.spec_id(),
            ),
            !old(self).statuses_view().dom().contains(species.spec_id())
                ==> final(self).statuses_view() == old(self).statuses_view(),
            old(self).wf() ==> final(self).wf(),
    {
        let id = species.id();
        // A missing status entry reads as already-Owned: an unregistered
        // species is ignored rather than inserted.
        let advance: bool = match self.species_statuses.get(&id) {
            Some(s) => *s == Status::Unseen,
            None => false,
        };
        if advance {
            self.species_statuses.insert(id, Status::Seen);
        }
    }

    /// Records that `species` is owned: any status other than `Owned`
    /// advances to `Owned`, and a species whose id was never registered is
    /// silently ignored. The species index is unchanged, so well-formedness
    /// is preserved.
    pub fn own<W>(&mut self, species: &W) where W: BestiarySpeciesData<T, U, V> + Id + Name
        ensures
            final(self).species_view() == old(self).species_view(),
            final(self).statuses_view() == own_step(
                old(self).statuses_view(),
                species.spec_id(),
            ),
            !old(self).statuses_view().dom().contains(species.spec_id())
                ==> final(self).statuses_view() == old(self).statuses_view(),
            old(self).wf() ==> final(self).wf(),
    {
        let id = species.id();
        // A missing status entry reads as already-Owned: an unregistered
        // species is ignored rather than inserted.
        let already_owned: bool = match self.species_statuses.get(&id) {
            Some(s) => *s == Status::Owned,
            None => true,
        };
        if !already_owned {
            self.species_statuses.insert(id, Status::Owned);
        }
    }
}

} // verus!
