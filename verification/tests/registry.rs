use nearme_contract::address::derive_proof_address;
use nearme_contract::errors::ErrorCode;
use nearme_contract::machine::{
    close_location_proof, create_location_proof, get_location_proof, CloseLocationProof,
    CreateLocationProof,
};
use nearme_contract::records::{LocationProof, LocationVerifiedEvent};
use nearme_contract::store::RecordStore;
use nearme_contract::validate::validate_coordinates;

#[allow(non_snake_case)]
fn SERVER() -> CreateLocationProof {
    CreateLocationProof { payer: 11, bump: 254 }
}

#[test]
fn first_create_succeeds_second_reports_already_exists() {
    let mut store = RecordStore::new();
    let id = vec![1u8, 2, 3];
    let r = create_location_proof(&mut store, SERVER(), 45_500_000, -73_600_000, &id, 1_700_000_000);
    assert_eq!(
        r,
        Ok(LocationVerifiedEvent { lat: 45_500_000, lng: -73_600_000, timestamp: 1_700_000_000 })
    );
    let again =
        create_location_proof(&mut store, SERVER(), 10_000_000, 20_000_000, &id, 1_700_000_999);
    assert_eq!(again, Err(ErrorCode::AlreadyExists));
    // the original fields are untouched by the failed second creation
    assert_eq!(
        get_location_proof(&store, &id),
        Some(LocationProof {
            lat: 45_500_000,
            lng: -73_600_000,
            verified_at: 1_700_000_000,
            bump: 254
        })
    );
}

#[test]
fn latitude_above_bound_is_rejected() {
    let mut store = RecordStore::new();
    let id = vec![9u8];
    let r = create_location_proof(&mut store, SERVER(), 90_000_001, 0, &id, 5);
    assert_eq!(r, Err(ErrorCode::InvalidLatitude));
    assert_eq!(get_location_proof(&store, &id), None);
}

#[test]
fn longitude_below_bound_is_rejected() {
    let mut store = RecordStore::new();
    let id = vec![9u8];
    let r = create_location_proof(&mut store, SERVER(), 0, -180_000_001, &id, 5);
    assert_eq!(r, Err(ErrorCode::InvalidLongitude));
    assert_eq!(get_location_proof(&store, &id), None);
}

#[test]
fn doubly_invalid_coordinates_report_latitude_first() {
    let mut store = RecordStore::new();
    let id = vec![9u8];
    let r = create_location_proof(&mut store, SERVER(), 90_000_001, 180_000_001, &id, 5);
    assert_eq!(r, Err(ErrorCode::InvalidLatitude));
}

#[test]
fn boundary_coordinates_are_accepted() {
    let mut store = RecordStore::new();
    let r = create_location_proof(&mut store, SERVER(), 90_000_000, 180_000_000, &vec![1u8], 5);
    assert!(r.is_ok());
    let r = create_location_proof(&mut store, SERVER(), -90_000_000, -180_000_000, &vec![2u8], 6);
    assert!(r.is_ok());
}

#[test]
fn merchant_id_of_33_bytes_is_too_long() {
    let mut store = RecordStore::new();
    let id = vec![7u8; 33];
    let r = create_location_proof(&mut store, SERVER(), 0, 0, &id, 5);
    assert_eq!(r, Err(ErrorCode::MerchantIdTooLong));
}

#[test]
fn merchant_id_of_32_bytes_is_accepted() {
    let mut store = RecordStore::new();
    let id = vec![7u8; 32];
    let r = create_location_proof(&mut store, SERVER(), 0, 0, &id, 5);
    assert!(r.is_ok());
    assert!(get_location_proof(&store, &id).is_some());
}

#[test]
fn empty_merchant_id_is_accepted() {
    let mut store = RecordStore::new();
    let id: Vec<u8> = Vec::new();
    let r = create_location_proof(&mut store, SERVER(), 1, 2, &id, 3);
    assert!(r.is_ok());
}

#[test]
fn oversized_id_is_rejected_before_lat_check() {
    let mut store = RecordStore::new();
    let id = vec![7u8; 33];
    let r = create_location_proof(&mut store, SERVER(), 90_000_001, 0, &id, 5);
    assert_eq!(r, Err(ErrorCode::MerchantIdTooLong));
}

#[test]
fn close_by_wrong_authority_is_unauthorized_and_record_kept() {
    let mut store = RecordStore::new();
    let id = vec![4u8, 5];
    create_location_proof(&mut store, SERVER(), 1_000, 2_000, &id, 42).unwrap();
    let r = close_location_proof(&mut store, CloseLocationProof { authority: 99 }, &id);
    assert_eq!(r, Err(ErrorCode::Unauthorized));
    assert_eq!(
        get_location_proof(&store, &id),
        Some(LocationProof { lat: 1_000, lng: 2_000, verified_at: 42, bump: 254 })
    );
}

#[test]
fn close_by_owner_removes_record_and_frees_the_slot() {
    let mut store = RecordStore::new();
    let id = vec![4u8, 5];
    create_location_proof(&mut store, SERVER(), 1_000, 2_000, &id, 42).unwrap();
    let r = close_location_proof(&mut store, CloseLocationProof { authority: 11 }, &id);
    assert_eq!(r, Ok(()));
    assert_eq!(get_location_proof(&store, &id), None);
    // a later creation for the same identifier succeeds with a fresh timestamp
    let r2 = create_location_proof(&mut store, SERVER(), 3_000, 4_000, &id, 77);
    assert_eq!(r2, Ok(LocationVerifiedEvent { lat: 3_000, lng: 4_000, timestamp: 77 }));
    assert_eq!(
        get_location_proof(&store, &id),
        Some(LocationProof { lat: 3_000, lng: 4_000, verified_at: 77, bump: 254 })
    );
}

#[test]
fn close_of_never_created_id_is_not_found() {
    let mut store = RecordStore::new();
    let r = close_location_proof(&mut store, CloseLocationProof { authority: 11 }, &vec![8u8]);
    assert_eq!(r, Err(ErrorCode::NotFound));
}

#[test]
fn records_of_distinct_merchants_live_side_by_side() {
    let mut store = RecordStore::new();
    let a = vec![1u8];
    let b = vec![2u8];
    create_location_proof(&mut store, SERVER(), 10, 20, &a, 1).unwrap();
    create_location_proof(&mut store, SERVER(), 30, 40, &b, 2).unwrap();
    // closing one leaves the other readable
    close_location_proof(&mut store, CloseLocationProof { authority: 11 }, &a).unwrap();
    assert_eq!(get_location_proof(&store, &a), None);
    assert_eq!(
        get_location_proof(&store, &b),
        Some(LocationProof { lat: 30, lng: 40, verified_at: 2, bump: 254 })
    );
}

#[test]
fn validator_reports_each_error_exactly() {
    assert_eq!(validate_coordinates(0, 0), Ok(()));
    assert_eq!(validate_coordinates(90_000_000, 180_000_000), Ok(()));
    assert_eq!(validate_coordinates(-90_000_001, 0), Err(ErrorCode::InvalidLatitude));
    assert_eq!(validate_coordinates(0, 180_000_001), Err(ErrorCode::InvalidLongitude));
    assert_eq!(
        validate_coordinates(-90_000_001, 180_000_001),
        Err(ErrorCode::InvalidLatitude)
    );
}

#[test]
fn derived_keys_are_prefixed_and_distinct() {
    let ka = derive_proof_address(&vec![1u8, 2]).unwrap();
    let kb = derive_proof_address(&vec![1u8, 3]).unwrap();
    assert_ne!(ka, kb);
    assert_eq!(ka[..5].to_vec(), b"proof".to_vec());
    assert_eq!(ka[5..].to_vec(), vec![1u8, 2]);
    assert_eq!(derive_proof_address(&vec![0u8; 33]), Err(ErrorCode::MerchantIdTooLong));
    assert!(derive_proof_address(&vec![0u8; 32]).is_ok());
}

#[test]
fn store_port_enforces_its_own_contract() {
    let mut store = RecordStore::new();
    let key = derive_proof_address(&vec![5u8]).unwrap();
    let record = LocationProof { lat: 1, lng: 2, verified_at: 3, bump: 4 };
    assert_eq!(store.create_if_absent(key.clone(), 7, record), Ok(()));
    assert_eq!(store.create_if_absent(key.clone(), 8, record), Err(ErrorCode::AlreadyExists));
    assert_eq!(store.read(&key), Some(record));
    assert_eq!(store.delete(&key, 8), Err(ErrorCode::Unauthorized));
    assert_eq!(store.delete(&key, 7), Ok(()));
    assert_eq!(store.read(&key), None);
    assert_eq!(store.delete(&key, 7), Err(ErrorCode::NotFound));
}
