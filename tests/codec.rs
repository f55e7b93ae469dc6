use mpl_core::types::{FreezeDelegate, Plugin, PluginAuthorityPair};
use nft_gateway::{
    CreateNftV1InstructionData, DataState, DecodeError, Instructions, PluginList,
    UpdateNftV1InstructionData,
};

fn freeze_plugin_list() -> Vec<u8> {
    let plugins = vec![PluginAuthorityPair {
        plugin: Plugin::FreezeDelegate(FreezeDelegate { frozen: true }),
        authority: None,
    }];
    borsh::to_vec(&plugins).unwrap()
}

#[test]
fn transfer_encodes_as_its_tag() {
    assert_eq!(Instructions::TransferNftV1.encode(), vec![2u8]);
    assert!(matches!(Instructions::try_from_slice(&[2]), Ok(Instructions::TransferNftV1)));
}

#[test]
fn update_without_fields_encodes_exactly() {
    let op = Instructions::UpdateNftV1(UpdateNftV1InstructionData { new_name: None, new_uri: None });
    assert_eq!(op.encode(), vec![1u8, 0, 0]);
}

#[test]
fn create_encodes_exactly() {
    let op = Instructions::CreateNftV1(CreateNftV1InstructionData {
        data_state: None,
        name: "a".to_string(),
        uri: "b".to_string(),
        plugins: None,
    });
    assert_eq!(op.encode(), vec![0u8, 0, 1, 0, 0, 0, 97, 1, 0, 0, 0, 98, 0]);
}

#[test]
fn create_round_trips_with_every_field() {
    let op = Instructions::CreateNftV1(CreateNftV1InstructionData {
        data_state: Some(DataState::LedgerState),
        name: "héllo wörld".to_string(),
        uri: "https://example.com/a.json".to_string(),
        plugins: Some(PluginList { encoded: freeze_plugin_list() }),
    });
    let bytes = op.encode();
    match Instructions::try_from_slice(&bytes).unwrap() {
        Instructions::CreateNftV1(d) => {
            assert_eq!(d.data_state, Some(DataState::LedgerState));
            assert_eq!(d.name, "héllo wörld");
            assert_eq!(d.uri, "https://example.com/a.json");
            assert_eq!(d.plugins.unwrap().encoded, freeze_plugin_list());
        }
        other => panic!("decoded to {:?}", other),
    }
}

#[test]
fn update_round_trips() {
    let op = Instructions::UpdateNftV1(UpdateNftV1InstructionData {
        new_name: Some("renamed".to_string()),
        new_uri: None,
    });
    let bytes = op.encode();
    match Instructions::try_from_slice(&bytes).unwrap() {
        Instructions::UpdateNftV1(d) => {
            assert_eq!(d.new_name, Some("renamed".to_string()));
            assert_eq!(d.new_uri, None);
        }
        other => panic!("decoded to {:?}", other),
    }
}

#[test]
fn multibyte_text_is_decoded_not_copied() {
    // "é" is two bytes on the wire and one character once decoded.
    let bytes = vec![1u8, 1, 2, 0, 0, 0, 0xc3, 0xa9, 0];
    match Instructions::try_from_slice(&bytes).unwrap() {
        Instructions::UpdateNftV1(d) => {
            let name = d.new_name.unwrap();
            assert_eq!(name, "é");
            assert_eq!(name.chars().count(), 1);
        }
        other => panic!("decoded to {:?}", other),
    }
}

#[test]
fn empty_payload_is_truncated() {
    assert_eq!(Instructions::try_from_slice(&[]).unwrap_err(), DecodeError::Truncated);
}

#[test]
fn unknown_operation_tag_is_refused() {
    assert_eq!(Instructions::try_from_slice(&[3]).unwrap_err(), DecodeError::UnknownDiscriminant);
}

#[test]
fn unknown_data_state_is_refused() {
    assert_eq!(
        Instructions::try_from_slice(&[0, 1, 5]).unwrap_err(),
        DecodeError::UnknownDiscriminant
    );
}

#[test]
fn bad_option_tag_is_refused() {
    assert_eq!(Instructions::try_from_slice(&[1, 2]).unwrap_err(), DecodeError::InvalidOptionTag);
}

#[test]
fn short_length_prefix_is_truncated() {
    assert_eq!(Instructions::try_from_slice(&[0, 0, 1, 0]).unwrap_err(), DecodeError::Truncated);
}

#[test]
fn length_beyond_input_is_refused() {
    assert_eq!(
        Instructions::try_from_slice(&[0, 0, 10, 0, 0, 0, 97]).unwrap_err(),
        DecodeError::LengthExceedsInput
    );
}

#[test]
fn invalid_utf8_is_refused() {
    assert_eq!(
        Instructions::try_from_slice(&[1, 1, 1, 0, 0, 0, 0xff, 0]).unwrap_err(),
        DecodeError::InvalidUtf8
    );
}

#[test]
fn malformed_plugin_list_is_refused() {
    assert_eq!(
        Instructions::try_from_slice(&[0, 0, 0, 0, 0, 0, 0, 0, 0, 0, 1, 1, 0, 0, 0]).unwrap_err(),
        DecodeError::InvalidPluginList
    );
}

#[test]
fn real_plugin_list_is_accepted() {
    let mut bytes = vec![0u8, 0, 0, 0, 0, 0, 0, 0, 0, 0, 1];
    bytes.extend(freeze_plugin_list());
    assert!(Instructions::try_from_slice(&bytes).is_ok());
}

#[test]
fn bytes_after_the_last_field_are_refused() {
    assert_eq!(Instructions::try_from_slice(&[2, 0]).unwrap_err(), DecodeError::TrailingBytes);
    assert_eq!(
        Instructions::try_from_slice(&[1, 0, 0, 7]).unwrap_err(),
        DecodeError::TrailingBytes
    );
    assert_eq!(
        Instructions::try_from_slice(&[0, 0, 0, 0, 0, 0, 0, 0, 0, 0, 0, 9]).unwrap_err(),
        DecodeError::TrailingBytes
    );
}
