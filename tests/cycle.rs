use external_data_inherent::bag::{inherent_identifier, same_identifier, INHERENT_IDENTIFIER};
use external_data_inherent::pallet::{Call, InherentError, Origin, Pallet};
use external_data_inherent::provider::{
    ExternalDataInherentProvider, IncrementingProvider, SupplyError,
};
use sp_inherents::InherentData;

fn stored_bytes(bag: &InherentData) -> Option<Vec<u8>> {
    bag.get_data::<Vec<u8>>(&INHERENT_IDENTIFIER).unwrap()
}

#[test]
fn identifier_is_ext_data() {
    assert_eq!(&INHERENT_IDENTIFIER, b"ext_data");
    assert_eq!(&inherent_identifier(), b"ext_data");
    assert!(same_identifier(&INHERENT_IDENTIFIER, b"ext_data"));
    assert!(!same_identifier(&INHERENT_IDENTIFIER, b"ext_datb"));
}

#[test]
fn supply_then_create_set_and_reset() {
    let provider = ExternalDataInherentProvider(Some(42));
    let mut bag = InherentData::new();
    provider.provide_inherent_data(&mut bag);
    assert_eq!(stored_bytes(&bag), Some(vec![42, 0, 0, 0, 0, 0, 0, 0]));
    let call = Pallet::create_inherent(&bag);
    assert_eq!(call, Some(Call::SetInherentData { inherent_data: 42 }));
    let mut pallet = Pallet::new();
    assert_eq!(pallet.dispatch(Origin::NoSigner, call.unwrap()), Ok(()));
    assert_eq!(pallet.slot, Some(42));
    pallet.on_initialize(2);
    assert_eq!(pallet.slot, None);
}

#[test]
fn supply_encodes_little_endian() {
    let provider = ExternalDataInherentProvider(Some(0x0102_0304_0506_0708));
    let mut bag = InherentData::new();
    provider.provide_inherent_data(&mut bag);
    assert_eq!(stored_bytes(&bag), Some(vec![8, 7, 6, 5, 4, 3, 2, 1]));
    assert_eq!(Pallet::get_and_decode_data(&bag), Some(0x0102_0304_0506_0708));
}

#[test]
fn round_trip_edge_values() {
    for v in [0u64, 1, 255, 256, u32::MAX as u64, u64::MAX] {
        let mut bag = InherentData::new();
        ExternalDataInherentProvider(Some(v)).provide_inherent_data(&mut bag);
        assert_eq!(Pallet::get_and_decode_data(&bag), Some(v));
    }
}

#[test]
fn supply_overwrites_earlier_entry() {
    let mut bag = InherentData::new();
    ExternalDataInherentProvider(Some(1)).provide_inherent_data(&mut bag);
    ExternalDataInherentProvider(Some(2)).provide_inherent_data(&mut bag);
    assert_eq!(bag.len(), 1);
    assert_eq!(Pallet::get_and_decode_data(&bag), Some(2));
}

#[test]
fn empty_provider_leaves_bag_alone() {
    let mut bag = InherentData::new();
    ExternalDataInherentProvider(None).provide_inherent_data(&mut bag);
    assert_eq!(bag.len(), 0);
    assert_eq!(Pallet::get_and_decode_data(&bag), None);
    assert_eq!(Pallet::create_inherent(&bag), None);
}

#[test]
fn required_only_for_decodable_entry() {
    let empty = InherentData::new();
    assert!(matches!(Pallet::is_inherent_required(&empty), Ok(None)));

    let mut good = InherentData::new();
    ExternalDataInherentProvider(Some(3)).provide_inherent_data(&mut good);
    assert!(matches!(
        Pallet::is_inherent_required(&good),
        Ok(Some(InherentError::InherentRequiredForDataPresent))
    ));

    let mut short = InherentData::new();
    short.replace_data(INHERENT_IDENTIFIER, &vec![1u8, 2, 3]);
    assert!(matches!(Pallet::is_inherent_required(&short), Ok(None)));
    assert_eq!(Pallet::create_inherent(&short), None);

    let mut garbage = InherentData::new();
    garbage.replace_data(INHERENT_IDENTIFIER, &7u8);
    assert!(matches!(Pallet::is_inherent_required(&garbage), Ok(None)));

    let mut other = InherentData::new();
    other.replace_data(*b"otherid_", &vec![1u8, 2, 3, 4, 5, 6, 7, 8]);
    assert!(matches!(Pallet::is_inherent_required(&other), Ok(None)));
}

#[test]
fn errors_of_this_channel_are_fatal() {
    let provider = ExternalDataInherentProvider(None);
    let r = provider.try_handle_error(&INHERENT_IDENTIFIER, &[1, 2]);
    match r {
        Some(Err(e)) => assert_eq!(e.error, vec![1, 2]),
        _ => panic!("expected a fatal error"),
    }
    assert!(matches!(provider.try_handle_error(&INHERENT_IDENTIFIER, &[]), Some(Err(_))));
    assert!(provider.try_handle_error(b"timstap0", &[1, 2]).is_none());
}

#[test]
fn incrementing_provider_advances() {
    let mut provider = IncrementingProvider { held: Some(5) };
    let mut bag = InherentData::new();
    assert_eq!(provider.supply(&mut bag), Ok(5));
    assert_eq!(Pallet::get_and_decode_data(&bag), Some(5));
    assert_eq!(provider.held, Some(6));
    let mut next = InherentData::new();
    assert_eq!(provider.supply(&mut next), Ok(6));
    assert_eq!(Pallet::get_and_decode_data(&next), Some(6));
    assert_eq!(provider.held, Some(7));
}

#[test]
fn incrementing_provider_failures() {
    let mut bag = InherentData::new();
    let mut missing = IncrementingProvider { held: None };
    assert_eq!(missing.supply(&mut bag), Err(SupplyError::MissingData));
    let mut full = IncrementingProvider { held: Some(u64::MAX) };
    assert_eq!(full.supply(&mut bag), Err(SupplyError::CounterExhausted));
    assert_eq!(full.held, Some(u64::MAX));
    assert_eq!(bag.len(), 0);
}
