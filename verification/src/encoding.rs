//! The wire encoding of the client-state envelope the host persists.
//!
//! The envelope is the remote-chain-family-agnostic wasm client state of
//! ibc-proto, wrapped in a protobuf `Any`. The protobuf encoding itself is
//! done by prost; this module names its results and states nothing about
//! their bytes beyond determinism, which is all the callers rely on.
use vstd::prelude::*;
use crate::height::Height;

verus! {

/// The protobuf encoding of an ibc.lightclients.wasm.v1.ClientState with
/// the given field values.
pub uninterp spec fn wasm_client_state_enc(
    data: Seq<u8>,
    checksum: Seq<u8>,
    revision_number: u64,
    revision_height: u64,
) -> Seq<u8>;

/// The protobuf encoding of a google.protobuf.Any with the given type URL
/// and value bytes.
pub uninterp spec fn any_enc(type_url: Seq<char>, value: Seq<u8>) -> Seq<u8>;

/// Relies on prost's Message::encode_to_vec for ibc-proto's
/// ibc.lightclients.wasm.v1.ClientState: the encoding is a deterministic
/// function of the message's fields and the call does not fail.
#[verifier::external_body]
fn encode_wasm_client_state(
    data: &Vec<u8>,
    checksum: &Vec<u8>,
    revision_number: u64,
    revision_height: u64,
) -> (r: Vec<u8>)
    ensures
        r@ == wasm_client_state_enc(data@, checksum@, revision_number, revision_height),
{
    let msg = ibc_proto::ibc::lightclients::wasm::v1::ClientState {
        data: data.clone(),
        checksum: checksum.clone(),
        latest_height: Some(
            ibc_proto::ibc::core::client::v1::Height { revision_number, revision_height },
        ),
    };
    prost::Message::encode_to_vec(&msg)
}

/// Relies on prost's Message::encode_to_vec for ibc-proto's
/// google.protobuf.Any: the encoding is a deterministic function of the
/// type URL and the value bytes, and the call does not fail.
#[verifier::external_body]
fn encode_any(type_url: &str, value: &Vec<u8>) -> (r: Vec<u8>)
    ensures
        r@ == any_enc(type_url@, value@),
{
    let msg = ibc_proto::google::protobuf::Any {
        type_url: type_url.to_string(),
        value: value.clone(),
    };
    prost::Message::encode_to_vec(&msg)
}

/// The encoded client-state envelope the host persists under the fixed
/// client-state key: a protobuf Any wrapping the wasm client state whose
/// latest height is `latest`.
pub fn encoded_client_state(data: &Vec<u8>, checksum: &Vec<u8>, latest: &Height) -> (r: Vec<u8>)
    ensures
        r@ == any_enc(
            "/ibc.lightclients.wasm.v1.ClientState"@,
            wasm_client_state_enc(
                data@,
                checksum@,
                latest.revision_number,
                latest.revision_height,
            ),
        ),
{
    let inner = encode_wasm_client_state(
        data,
        checksum,
        latest.revision_number,
        latest.revision_height,
    );
    encode_any("/ibc.lightclients.wasm.v1.ClientState", &inner)
}

} // verus!
