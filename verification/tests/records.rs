use building_records::api::register_new_organisation;
use building_records::building_owners::BuildingOwner;
use building_records::buildings::Building;
use building_records::coordinates::Coordinate;
use building_records::db::Db;
use building_records::entities_files::EntitiesFile;
use building_records::entities_history::EntitiesHistory;
use building_records::entities_notes::EntitiesNote;
use building_records::files::File;
use building_records::organizations::Organization;
use building_records::registers::Register;
use building_records::store::DbError;
use building_records::time::Timestamp;
use building_records::users::User;

fn create_test_coordinate1() -> Coordinate {
    Coordinate::new(
        String::from("STREET ADDRESS   #1"),
        String::from("TELEPHONE NUMBER #1"),
        String::from("FAX NUMBER       #1"),
        String::from("CELLPHONE NUMBER #1"),
        String::from("email@gmail.com  #1"),
        String::from("COMPANY NAME     #1"),
        String::from("COMPANY NUMBER   #1"),
    )
}

fn create_test_coordinate2() -> Coordinate {
    Coordinate::new(
        String::from("STREET ADDRESS   #2"),
        String::from("TELEPHONE NUMBER #2"),
        String::from("FAX NUMBER       #2"),
        String::from("CELLPHONE NUMBER #2"),
        String::from("email@gmail.com  #2"),
        String::from("COMPANY NAME     #2"),
        String::from("COMPANY NUMBER   #2"),
    )
}

fn create_test_user(unique: &str) -> User {
    let permission = 1;
    let full_name = format!("USER NAME {}", unique);
    let email = format!("email@gmail.com {}", unique);
    let password = format!("supersecretpassword {}", unique);
    let job_title = format!("Gestionnaire {}", unique);
    let profile_picture = format!("test.png {}", unique);

    User::new(
        permission,
        full_name,
        email,
        password,
        job_title,
        profile_picture,
        None,
    )
    .expect("password accepted")
}

fn create_test_organization1(db: &mut Db) -> Organization {
    let test_coord = create_test_coordinate1();
    Coordinate::insert(db, test_coord.clone()).unwrap();

    Organization::new(
        String::from("MANAGER NAME #1"),
        String::from("PROFILE PICTURE #1").into_bytes(),
        Some(test_coord.id()),
    )
}

fn create_test_organization2(db: &mut Db) -> Organization {
    let test_coord = create_test_coordinate1();
    Coordinate::insert(db, test_coord.clone()).unwrap();

    Organization::new(
        String::from("MANAGER NAME #2"),
        String::from("PROFILE PICTURE #2").into_bytes(),
        Some(test_coord.id()),
    )
}

fn create_test_building_owner1(db: &mut Db) -> BuildingOwner {
    let test_org = create_test_organization1(db);
    Organization::insert(db, test_org.clone()).unwrap();

    let test_user = create_test_user("BO1");
    User::insert(db, test_user.clone()).unwrap();

    let test_coord = create_test_coordinate1();
    Coordinate::insert(db, test_coord.clone()).unwrap();

    BuildingOwner::new(
        String::from("FULL NAME #1"),
        false,
        Some(test_org.id()),
        Some(test_user.id()),
        Some(test_coord.id()),
    )
}

fn create_test_building_owner2(db: &mut Db) -> BuildingOwner {
    let test_org = create_test_organization2(db);
    Organization::insert(db, test_org.clone()).unwrap();

    let test_user = create_test_user("BO2");
    User::insert(db, test_user.clone()).unwrap();

    let test_coord = create_test_coordinate2();
    Coordinate::insert(db, test_coord.clone()).unwrap();

    BuildingOwner::new(
        String::from("FULL NAME #2"),
        false,
        Some(test_org.id()),
        Some(test_user.id()),
        Some(test_coord.id()),
    )
}

fn create_test_building1(db: &mut Db) -> Building {
    let test_owner = create_test_building_owner1(db);
    BuildingOwner::insert(db, test_owner.clone()).unwrap();

    let test_org = create_test_organization1(db);
    Organization::insert(db, test_org.clone()).unwrap();

    let test_respondant = create_test_user("RESPONDANT BUILDING1");
    User::insert(db, test_respondant.clone()).unwrap();

    Building::new(
        test_owner.id(),
        test_org.id(),
        test_respondant.id(),
        String::from("BUILDING NAME #1"),
        String::from("BUILDING ADDRESS #1"),
    )
}

fn create_test_building2(db: &mut Db) -> Building {
    let test_owner = create_test_building_owner2(db);
    BuildingOwner::insert(db, test_owner.clone()).unwrap();

    let test_org = create_test_organization2(db);
    Organization::insert(db, test_org.clone()).unwrap();

    let test_respondant = create_test_user("RESPONDANT BUILDING2");
    User::insert(db, test_respondant.clone()).unwrap();

    Building::new(
        test_owner.id(),
        test_org.id(),
        test_respondant.id(),
        String::from("BUILDING NAME #2"),
        String::from("BUILDING ADDRESS #2"),
    )
}

fn create_test_file(_db: &mut Db) -> File {
    File::new(
        String::from("FILENAME.TXT"),
        String::from("URL OF FILE"),
        String::from("FILE CONTENT"),
    )
}

fn create_test_register(db: &mut Db) -> Register {
    let test_building = create_test_building1(db);
    Building::insert(db, test_building.clone()).unwrap();

    Register::new(String::from("TEST REGISTER"), test_building.id())
}

fn create_test_entity_file(db: &mut Db) -> EntitiesFile {
    let test_file = create_test_file(db);
    File::insert(db, test_file.clone()).unwrap();

    let test_register = create_test_register(db);
    Register::insert(db, test_register.clone()).unwrap();

    EntitiesFile::new(test_file.id(), test_register.id())
}

fn create_test_entities_histories(db: &mut Db) -> EntitiesHistory {
    let test_file = create_test_file(db);
    File::insert(db, test_file.clone()).unwrap();

    let test_user = create_test_user("ENTITY HISTORY");
    User::insert(db, test_user.clone()).unwrap();

    let test_register = create_test_register(db);
    Register::insert(db, test_register.clone()).unwrap();

    EntitiesHistory::new(test_register.id(), 1, test_file.id(), test_user.id())
}

fn create_test_note(db: &mut Db) -> EntitiesNote {
    let test_building = create_test_building1(db);
    Building::insert(db, test_building.clone()).unwrap();

    let test_user = create_test_user("ENTITIES NOTES");
    User::insert(db, test_user.clone()).unwrap();

    EntitiesNote::new(
        test_building.id(),
        test_user.id(),
        String::from("THIS IS A NOTE"),
    )
}

#[test]
fn test_create_coordinate() {
    let mut db = Db::new();

    let coord = create_test_coordinate1();
    Coordinate::insert(&mut db, coord.clone()).unwrap();
    let stored_coord = Coordinate::get_one_by_id(&db, coord.id()).unwrap();

    assert_eq!(stored_coord, coord);
}

#[test]
fn test_update_coordinate() {
    let mut db = Db::new();

    let mut coord = create_test_coordinate1();
    Coordinate::insert(&mut db, coord.clone()).unwrap();
    assert_eq!(coord, Coordinate::get_one_by_id(&db, coord.id()).unwrap());
    coord.address = String::from("NEW TEST ADDRESS");
    coord.cellphone_no = String::from("CHANGED CELLPHONE NO");
    coord.company_name = String::from("CHANGED COMPANY NAME");
    coord.company_number = String::from("CHANGED COMPANY NUMBER");
    coord.deleted = true;
    coord.email = String::from("CHANGED EMAIL");
    coord.fax = String::from("CHANGED FAX");
    coord.telephone_no = String::from("CHANGED TELEPHONE NO");

    Coordinate::update(&mut db, coord.clone()).unwrap();
    let saved_coord = Coordinate::get_one_by_id(&db, coord.id()).unwrap();

    assert_eq!(coord.address, saved_coord.address);
    assert_eq!(coord.cellphone_no, saved_coord.cellphone_no);
    assert_eq!(coord.company_name, saved_coord.company_name);
    assert_eq!(coord.company_number, saved_coord.company_number);
    assert_eq!(coord.deleted, saved_coord.deleted);
    assert_eq!(coord.email, saved_coord.email);
    assert_eq!(coord.fax, saved_coord.fax);
    assert_eq!(coord.telephone_no, saved_coord.telephone_no);
    assert_ne!(coord.updated_at, saved_coord.updated_at);
}

#[test]
fn test_create_new_user() {
    let mut db = Db::new();

    let user = create_test_user("TEST");
    User::insert(&mut db, user.clone()).unwrap();
    let stored_user = User::get_one_by_id(&db, user.id()).unwrap();

    assert_eq!(stored_user, user);
    assert_ne!(user.password, "supersecretpassword TEST");
}

#[test]
fn test_update_user_info() {
    let mut db = Db::new();

    let mut user = create_test_user("TEST");
    User::insert(&mut db, user.clone()).unwrap();

    user.full_name = String::from("Bernard Landry");
    user.permission = 1;
    user.email = String::from("blandry@gmail.com");
    user.change_password(
        "supersecretpassword TEST".to_owned(),
        "changedpassword".to_owned(),
    )
    .expect("Should not happen.");
    user.job_title = String::from("Coordinateur");
    user.profile_picture = String::from("new_picture.png");
    user.deleted = true;

    User::update(&mut db, user.clone()).unwrap();
    let saved_user = User::get_one_by_id(&db, user.id()).unwrap();

    assert_eq!(user.full_name, saved_user.full_name);
    assert_eq!(user.permission, saved_user.permission);
    assert_eq!(user.email, saved_user.email);
    assert_eq!(user.encrypted_password(), saved_user.encrypted_password());
    assert_eq!(user.job_title, saved_user.job_title);
    assert_eq!(user.profile_picture, saved_user.profile_picture);
    assert_eq!(user.deleted, saved_user.deleted);
    assert_eq!(user.created_at.secs, saved_user.created_at.secs);
    assert_eq!(user.deleted_at.secs, saved_user.deleted_at.secs);
}

#[test]
fn test_create_building_owner() {
    let mut db = Db::new();

    let bo = create_test_building_owner1(&mut db);
    BuildingOwner::insert(&mut db, bo.clone()).unwrap();
    let stored_bo = BuildingOwner::get_one_by_id(&db, bo.id()).unwrap();

    assert_eq!(bo, stored_bo);
}

#[test]
fn test_update_building_owner() {
    let mut db = Db::new();

    let mut bo = create_test_building_owner2(&mut db);

    BuildingOwner::insert(&mut db, bo.clone()).unwrap();
    assert_eq!(bo, BuildingOwner::get_one_by_id(&db, bo.id()).unwrap());
    bo.coordinates_id = None;
    bo.deleted = true;
    bo.full_name = String::from("NEW FULL NAME");
    bo.is_manager = true;
    bo.linked_user_id = None;
    bo.org_id = None;

    BuildingOwner::update(&mut db, bo.clone()).unwrap();
    let saved_bo = BuildingOwner::get_one_by_id(&db, bo.id()).unwrap();

    assert_eq!(bo.deleted, saved_bo.deleted);
    assert_eq!(bo.full_name, saved_bo.full_name);
    assert_eq!(bo.is_manager, saved_bo.is_manager);
    assert_eq!(bo.linked_user_id, saved_bo.linked_user_id);
    assert_eq!(bo.org_id, saved_bo.org_id);
    assert_eq!(bo.coordinates_id, saved_bo.coordinates_id);
}

#[test]
fn test_create_new_building() {
    let mut db = Db::new();

    let b1 = create_test_building1(&mut db);
    let b2 = create_test_building2(&mut db);

    Building::insert(&mut db, b1.clone()).unwrap();
    Building::insert(&mut db, b2.clone()).unwrap();

    let buildings = Building::get_all(&db);

    assert_eq!(buildings[0], b1);
    assert_eq!(buildings[1], b2);
}

#[test]
fn test_update_building_info() {
    let mut db = Db::new();

    let mut b1 = create_test_building2(&mut db);

    Building::insert(&mut db, b1.clone()).unwrap();
    b1.name = String::from("Réjean Tremblay");

    Building::update(&mut db, b1.clone()).unwrap();

    let stored_b = Building::get_one_by_id(&db, b1.id()).unwrap();

    assert_eq!(stored_b, b1);
}

#[test]
fn test_create_new_file() {
    let mut db = Db::new();

    let file = create_test_file(&mut db);
    File::insert(&mut db, file.clone()).unwrap();
    let stored_file = File::get_one_by_id(&db, file.id()).unwrap();

    assert_eq!(file, stored_file);
}

#[test]
fn test_update_file() {
    let mut db = Db::new();

    let mut file = create_test_file(&mut db);
    File::insert(&mut db, file.clone()).unwrap();
    assert_eq!(file, File::get_one_by_id(&db, file.id()).unwrap());
    file.content = String::from("NEW CONTENT");
    file.deleted = true;
    file.filename = String::from("NEW FILE NAME");
    file.url = String::from("NEW URL");

    File::update(&mut db, file.clone()).unwrap();
    let stored_file = File::get_one_by_id(&db, file.id()).unwrap();

    assert_eq!(file, stored_file);
}

#[test]
fn test_insert_entities_files() {
    let mut db = Db::new();

    let entfile = create_test_entity_file(&mut db);
    EntitiesFile::insert(&mut db, entfile.clone()).unwrap();
    let stored_entfile = EntitiesFile::get_by_file_id(&db, entfile.file_id);

    assert_eq!(entfile, stored_entfile[0]);
}

#[test]
fn test_insert_entities_history() {
    let mut db = Db::new();

    let enthist = create_test_entities_histories(&mut db);
    EntitiesHistory::insert(&mut db, enthist.clone()).unwrap();
    let stored_enthist = EntitiesHistory::get_one_by_id(&db, enthist.id()).unwrap();

    assert_eq!(enthist, stored_enthist);
}

#[test]
fn test_insert_entity_note() {
    let mut db = Db::new();

    let entnote = create_test_note(&mut db);
    EntitiesNote::insert(&mut db, entnote.clone()).unwrap();
    let stored_entnote = EntitiesNote::get_one_by_id(&db, entnote.id()).unwrap();

    assert_eq!(entnote, stored_entnote);
}

#[test]
fn test_update_entity_note() {
    let mut db = Db::new();

    let mut entnote = create_test_note(&mut db);
    EntitiesNote::insert(&mut db, entnote.clone()).unwrap();
    assert_eq!(entnote, EntitiesNote::get_one_by_id(&db, entnote.id()).unwrap());
    entnote.note = String::from("THIS IS A NEW NOTE");

    EntitiesNote::update(&mut db, entnote.clone()).unwrap();
    let stored_note = EntitiesNote::get_one_by_id(&db, entnote.id()).unwrap();
    assert_eq!(entnote, stored_note);
}

#[test]
fn organizations_test_insert_building_manager() {
    let mut db = Db::new();

    let org = create_test_organization1(&mut db);
    Organization::insert(&mut db, org.clone()).unwrap();
    let stored_org = Organization::get_one_by_id(&db, org.id()).unwrap();

    assert_eq!(org, stored_org);
}

#[test]
fn organizations_test_update_building_manager() {
    let mut db = Db::new();

    let mut org = create_test_organization2(&mut db);
    Organization::insert(&mut db, org.clone()).unwrap();
    assert_eq!(org, Organization::get_one_by_id(&db, org.id()).unwrap());
    org.coordinates_id = None;
    org.deleted = true;
    org.org_name = String::from("NEW FULL NAME");
    org.profile_picture = String::from("NEW PROFILE PICTURE").into_bytes();

    Organization::update(&mut db, org.clone()).unwrap();
    let saved_org = Organization::get_one_by_id(&db, org.id()).unwrap();

    assert_eq!(org.coordinates_id, saved_org.coordinates_id);
    assert_eq!(org.deleted, saved_org.deleted);
    assert_eq!(org.org_name, saved_org.org_name);
    assert_eq!(org.profile_picture, saved_org.profile_picture);
}

#[test]
fn test_insert_register() {
    let mut db = Db::new();

    let register = create_test_register(&mut db);
    Register::insert(&mut db, register.clone()).unwrap();
    let stored_register = Register::get_one_by_id(&db, register.id()).unwrap();

    assert_eq!(register, stored_register);
}

#[test]
fn test_update_register() {
    let mut db = Db::new();

    let mut register = create_test_register(&mut db);
    Register::insert(&mut db, register.clone()).unwrap();
    assert_eq!(register, Register::get_one_by_id(&db, register.id()).unwrap());
    register.name = String::from("CHANGED NAME");
    Register::update(&mut db, register.clone()).unwrap();
    let saved_register = Register::get_one_by_id(&db, register.id()).unwrap();
    assert_eq!(register, saved_register);
}

#[test]
fn test_insert_building_missing_references() {
    let mut db = Db::new();

    let owner = BuildingOwner::new(String::from("ABSENT OWNER"), false, None, None, None);
    let org = Organization::new(String::from("ABSENT ORG"), Vec::new(), None);
    let respondant = create_test_user("ABSENT RESPONDANT");

    let building = Building::new(
        owner.id(),
        org.id(),
        respondant.id(),
        String::from("ORPHAN BUILDING"),
        String::from("ORPHAN ADDRESS"),
    );

    let result = Building::insert(&mut db, building);
    assert!(matches!(result, Err(DbError::ConstraintViolation)));
    assert!(Building::get_all(&db).is_empty());
}

#[test]
fn test_insert_duplicate_identifier() {
    let mut db = Db::new();

    let coord = create_test_coordinate1();
    Coordinate::insert(&mut db, coord.clone()).unwrap();
    let result = Coordinate::insert(&mut db, coord.clone());
    assert!(matches!(result, Err(DbError::ConstraintViolation)));
}

#[test]
fn test_update_missing_record() {
    let mut db = Db::new();

    let coord = create_test_coordinate1();
    let result = Coordinate::update(&mut db, coord);
    assert!(matches!(result, Err(DbError::NotFound)));
}

#[test]
fn test_get_one_by_id_missing() {
    let db = Db::new();

    let coord = create_test_coordinate1();
    let result = Coordinate::get_one_by_id(&db, coord.id());
    assert!(matches!(result, Err(DbError::NotFound)));
}

#[test]
fn test_soft_delete_keeps_record() {
    let mut db = Db::new();

    let mut coord = create_test_coordinate1();
    Coordinate::insert(&mut db, coord.clone()).unwrap();
    coord.deleted = true;
    Coordinate::update(&mut db, coord.clone()).unwrap();

    let stored = Coordinate::get_one_by_id(&db, coord.id()).unwrap();
    assert!(stored.deleted);
    assert_eq!(stored.id, coord.id);
}

#[test]
fn test_entities_file_duplicate_pair() {
    let mut db = Db::new();

    let entfile = create_test_entity_file(&mut db);
    EntitiesFile::insert(&mut db, entfile.clone()).unwrap();
    let result = EntitiesFile::insert(&mut db, entfile.clone());
    assert!(matches!(result, Err(DbError::ConstraintViolation)));
}

#[test]
fn test_change_password_success() {
    let mut user = create_test_user("PWD");

    user.change_password(
        "supersecretpassword PWD".to_owned(),
        "anothersecret".to_owned(),
    )
    .expect("old password matches");

    assert_ne!(user.password, "supersecretpassword PWD");
    assert_ne!(user.password, "anothersecret");

    user.change_password("anothersecret".to_owned(), "thirdsecret".to_owned())
        .expect("the new credential verifies the new plaintext");
}

#[test]
fn test_change_password_wrong_old() {
    let mut user = create_test_user("PWD2");
    let before = user.encrypted_password().clone();

    let result = user.change_password("not the password".to_owned(), "whatever123".to_owned());

    assert!(result.is_err());
    assert_eq!(result.unwrap_err(), "Wrong password entered");
    assert_eq!(user.encrypted_password(), &before);
}

#[test]
fn test_password_never_stored_verbatim() {
    let mut db = Db::new();

    let user = User::new(
        1,
        String::from("USER NAME"),
        String::from("email@gmail.com"),
        String::from("supersecretpassword"),
        String::from("Gestionnaire"),
        String::from("test.png"),
        None,
    )
    .expect("password accepted");
    User::insert(&mut db, user.clone()).unwrap();

    let stored = User::get_one_by_id(&db, user.id()).unwrap();
    assert_ne!(stored.password, "supersecretpassword");
}

#[test]
fn test_second_precision_equality() {
    let coord = create_test_coordinate1();

    let mut same_second = coord.clone();
    same_second.updated_at = Timestamp {
        secs: coord.updated_at.secs,
        nanos: coord.updated_at.nanos.wrapping_add(1),
    };
    assert_eq!(coord, same_second);

    let mut other_second = coord.clone();
    other_second.updated_at = Timestamp {
        secs: coord.updated_at.secs + 1,
        nanos: coord.updated_at.nanos,
    };
    assert_ne!(coord, other_second);
}

#[test]
fn test_register_new_organisation_persists_user() {
    let mut db = Db::new();

    let user = create_test_user("REGISTRATION");
    let organization = BuildingOwner::new(String::from("NEW ORG"), true, None, None, None);

    let result = register_new_organisation(&mut db, user.clone(), organization, Vec::new());

    assert!(result.is_ok());
    let stored = User::get_one_by_id(&db, user.id()).unwrap();
    assert_eq!(stored, user);
}
