//! The relational store: one table per record kind, with the referential
//! rules between them.
//!
//! Well-formedness bundles three things that every operation preserves:
//! identifiers are unique within each table, file links are unique per
//! (file, record) pair, and every stored reference points at a stored
//! row. Nothing is ever removed from a table, so a reference, once
//! satisfied, stays satisfied.

use vstd::prelude::*;

use crate::building_owners::BuildingOwner;
use crate::buildings::Building;
use crate::coordinates::Coordinate;
use crate::entities_files::{unique_links, EntitiesFile};
use crate::entities_history::EntitiesHistory;
use crate::entities_notes::EntitiesNote;
use crate::files::File;
use crate::organizations::Organization;
use crate::registers::Register;
use crate::store::Table;
use crate::users::User;

verus! {

/// The whole store.
pub struct Db {
    pub coordinates: Table<Coordinate>,
    pub organizations: Table<Organization>,
    pub users: Table<User>,
    pub building_owners: Table<BuildingOwner>,
    pub buildings: Table<Building>,
    pub files: Table<File>,
    pub entities_files: Vec<EntitiesFile>,
    pub entities_history: Table<EntitiesHistory>,
    pub entities_notes: Table<EntitiesNote>,
    pub registers: Table<Register>,
}

impl Db {
    /// Every organization's optional coordinate reference is satisfied.
    pub open spec fn organization_refs_ok(self) -> bool {
        forall|i: int|
            0 <= i < self.organizations@.len() ==> (#[trigger] self.organizations@[i]).refs_present(
                self,
            )
    }

    /// Every user's optional organization reference is satisfied.
    pub open spec fn user_refs_ok(self) -> bool {
        forall|i: int|
            0 <= i < self.users@.len() ==> (#[trigger] self.users@[i]).refs_present(self)
    }

    /// Every building owner's optional references — organization, linked
    /// user and coordinates — are satisfied.
    pub open spec fn building_owner_refs_ok(self) -> bool {
        forall|i: int|
            0 <= i < self.building_owners@.len() ==> (
            #[trigger] self.building_owners@[i]).refs_present(self)
    }

    /// Every building's required references — owner, organization and
    /// responding user — are satisfied.
    pub open spec fn building_refs_ok(self) -> bool {
        forall|i: int|
            0 <= i < self.buildings@.len() ==> (#[trigger] self.buildings@[i]).refs_present(self)
    }

    /// Every register's building reference is satisfied.
    pub open spec fn register_refs_ok(self) -> bool {
        forall|i: int|
            0 <= i < self.registers@.len() ==> (#[trigger] self.registers@[i]).refs_present(self)
    }

    /// Every note's user reference is satisfied. The record a note is
    /// about may be of any kind, so that reference is not constrained.
    pub open spec fn note_refs_ok(self) -> bool {
        forall|i: int|
            0 <= i < self.entities_notes@.len() ==> (
            #[trigger] self.entities_notes@[i]).refs_present(self)
    }

    /// Every history entry's file and user references are satisfied. The
    /// record an entry is about may be of any kind, so that reference is
    /// not constrained.
    pub open spec fn history_refs_ok(self) -> bool {
        forall|i: int|
            0 <= i < self.entities_history@.len() ==> (
            #[trigger] self.entities_history@[i]).refs_present(self)
    }

    /// Every file link's file reference is satisfied. The record a file
    /// is linked to may be of any kind, so that reference is not
    /// constrained.
    pub open spec fn link_refs_ok(self) -> bool {
        forall|i: int|
            0 <= i < self.entities_files@.len() ==> (
            #[trigger] self.entities_files@[i]).refs_present(self)
    }

    /// Every stored reference points at a stored row.
    pub open spec fn refs_ok(self) -> bool {
        &&& self.organization_refs_ok()
        &&& self.user_refs_ok()
        &&& self.building_owner_refs_ok()
        &&& self.building_refs_ok()
        &&& self.register_refs_ok()
        &&& self.note_refs_ok()
        &&& self.history_refs_ok()
        &&& self.link_refs_ok()
    }

    /// The store's invariant: identifier uniqueness in every table, file
    /// links unique per pair, and referential integrity throughout.
    pub open spec fn wf(self) -> bool {
        &&& self.coordinates.wf()
        &&& self.organizations.wf()
        &&& self.users.wf()
        &&& self.building_owners.wf()
        &&& self.buildings.wf()
        &&& self.files.wf()
        &&& unique_links(self.entities_files@)
        &&& self.entities_history.wf()
        &&& self.entities_notes.wf()
        &&& self.registers.wf()
        &&& self.refs_ok()
    }

    /// Every table except `coordinates` is the same as in `other`.
    pub open spec fn same_except_coordinates(self, other: Db) -> bool {
        &&& self.organizations == other.organizations
        &&& self.users == other.users
        &&& self.building_owners == other.building_owners
        &&& self.buildings == other.buildings
        &&& self.files == other.files
        &&& self.entities_files == other.entities_files
        &&& self.entities_history == other.entities_history
        &&& self.entities_notes == other.entities_notes
        &&& self.registers == other.registers
    }

    /// Every table except `organizations` is the same as in `other`.
    pub open spec fn same_except_organizations(self, other: Db) -> bool {
        &&& self.coordinates == other.coordinates
        &&& self.users == other.users
        &&& self.building_owners == other.building_owners
        &&& self.buildings == other.buildings
        &&& self.files == other.files
        &&& self.entities_files == other.entities_files
        &&& self.entities_history == other.entities_history
        &&& self.entities_notes == other.entities_notes
        &&& self.registers == other.registers
    }

    /// Every table except `users` is the same as in `other`.
    pub open spec fn same_except_users(self, other: Db) -> bool {
        &&& self.coordinates == other.coordinates
        &&& self.organizations == other.organizations
        &&& self.building_owners == other.building_owners
        &&& self.buildings == other.buildings
        &&& self.files == other.files
        &&& self.entities_files == other.entities_files
        &&& self.entities_history == other.entities_history
        &&& self.entities_notes == other.entities_notes
        &&& self.registers == other.registers
    }

    /// Every table except `building_owners` is the same as in `other`.
    pub open spec fn same_except_building_owners(self, other: Db) -> bool {
        &&& self.coordinates == other.coordinates
        &&& self.organizations == other.organizations
        &&& self.users == other.users
        &&& self.buildings == other.buildings
        &&& self.files == other.files
        &&& self.entities_files == other.entities_files
        &&& self.entities_history == other.entities_history
        &&& self.entities_notes == other.entities_notes
        &&& self.registers == other.registers
    }

    /// Every table except `buildings` is the same as in `other`.
    pub open spec fn same_except_buildings(self, other: Db) -> bool {
        &&& self.coordinates == other.coordinates
        &&& self.organizations == other.organizations
        &&& self.users == other.users
        &&& self.building_owners == other.building_owners
        &&& self.files == other.files
        &&& self.entities_files == other.entities_files
        &&& self.entities_history == other.entities_history
        &&& self.entities_notes == other.entities_notes
        &&& self.registers == other.registers
    }

    /// Every table except `files` is the same as in `other`.
    pub open spec fn same_except_files(self, other: Db) -> bool {
        &&& self.coordinates == other.coordinates
        &&& self.organizations == other.organizations
        &&& self.users == other.users
        &&& self.building_owners == other.building_owners
        &&& self.buildings == other.buildings
        &&& self.entities_files == other.entities_files
        &&& self.entities_history == other.entities_history
        &&& self.entities_notes == other.entities_notes
        &&& self.registers == other.registers
    }

    /// Every table except `entities_files` is the same as in `other`.
    pub open spec fn same_except_entities_files(self, other: Db) -> bool {
        &&& self.coordinates == other.coordinates
        &&& self.organizations == other.organizations
        &&& self.users == other.users
        &&& self.building_owners == other.building_owners
        &&& self.buildings == other.buildings
        &&& self.files == other.files
        &&& self.entities_history == other.entities_history
        &&& self.entities_notes == other.entities_notes
        &&& self.registers == other.registers
    }

    /// Every table except `entities_history` is the same as in `other`.
    pub open spec fn same_except_entities_history(self, other: Db) -> bool {
        &&& self.coordinates == other.coordinates
        &&& self.organizations == other.organizations
        &&& self.users == other.users
        &&& self.building_owners == other.building_owners
        &&& self.buildings == other.buildings
        &&& self.files == other.files
        &&& self.entities_files == other.entities_files
        &&& self.entities_notes == other.entities_notes
        &&& self.registers == other.registers
    }

    /// Every table except `entities_notes` is the same as in `other`.
    pub open spec fn same_except_entities_notes(self, other: Db) -> bool {
        &&& self.coordinates == other.coordinates
        &&& self.organizations == other.organizations
        &&& self.users == other.users
        &&& self.building_owners == other.building_owners
        &&& self.buildings == other.buildings
        &&& self.files == other.files
        &&& self.entities_files == other.entities_files
        &&& self.entities_history == other.entities_history
        &&& self.registers == other.registers
    }

    /// Every table except `registers` is the same as in `other`.
    pub open spec fn same_except_registers(self, other: Db) -> bool {
        &&& self.coordinates == other.coordinates
        &&& self.organizations == other.organizations
        &&& self.users == other.users
        &&& self.building_owners == other.building_owners
        &&& self.buildings == other.buildings
        &&& self.files == other.files
        &&& self.entities_files == other.entities_files
        &&& self.entities_history == other.entities_history
        &&& self.entities_notes == other.entities_notes
    }

    /// An empty store.
    pub fn new() -> (db: Db)
        ensures
            db.wf(),
            db.coordinates@ == Seq::<Coordinate>::empty(),
            db.organizations@ == Seq::<Organization>::empty(),
            db.users@ == Seq::<User>::empty(),
            db.building_owners@ == Seq::<BuildingOwner>::empty(),
            db.buildings@ == Seq::<Building>::empty(),
            db.files@ == Seq::<File>::empty(),
            db.entities_files@ == Seq::<EntitiesFile>::empty(),
            db.entities_history@ == Seq::<EntitiesHistory>::empty(),
            db.entities_notes@ == Seq::<EntitiesNote>::empty(),
            db.registers@ == Seq::<Register>::empty(),
    {
        Db {
            coordinates: Table::new(),
            organizations: Table::new(),
            users: Table::new(),
            building_owners: Table::new(),
            buildings: Table::new(),
            files: Table::new(),
            entities_files: Vec::new(),
            entities_history: Table::new(),
            entities_notes: Table::new(),
            registers: Table::new(),
        }
    }
}

} // verus!
