use vstd::prelude::*;

verus! {

/// One account slot of an instruction, as the runtime presents it.
///
/// Balance and data size are carried along but never interpreted.
#[derive(Clone, Copy, Debug)]
pub struct AccountRef {
    pub key: [u8; 32],
    pub owner: [u8; 32],
    pub is_signer: bool,
    pub is_writable: bool,
    pub lamports: u64,
    pub data_len: usize,
}

/// The identities that account checks compare against.
#[derive(Clone, Copy, Debug)]
pub struct ProgramIds {
    /// The runtime's system program: the system-program slot must hold this
    /// address and be owned by it.
    pub system_program: [u8; 32],
    /// The asset protocol that validated calls are forwarded to.
    pub mpl_core: [u8; 32],
}

impl AccountRef {
    /// The slot is a deliberate "no account" marker: it holds this program's own address.
    pub open spec fn is_absent(self) -> bool {
        self.key@ == gateway_address()
    }
}

/// This program's address, `3KRCmsnNYQvjp1TZaha1riRmx5GGVt67yv2sxDsFXbRG` in base58.
/// Clients pass it in an optional slot to leave the role empty.
pub open spec fn gateway_address() -> Seq<u8> {
    seq![
        34u8, 111, 49, 224, 94, 225, 58, 144, 43, 105, 253, 240, 27, 97, 131, 109,
        85, 97, 150, 214, 74, 204, 148, 42, 169, 94, 36, 52, 18, 225, 81, 151,
    ]
}

/// This program's address as bytes.
pub fn gateway_key() -> (r: [u8; 32])
    ensures
        r@ == gateway_address(),
{
    let r: [u8; 32] = [
        34, 111, 49, 224, 94, 225, 58, 144, 43, 105, 253, 240, 27, 97, 131, 109,
        85, 97, 150, 214, 74, 204, 148, 42, 169, 94, 36, 52, 18, 225, 81, 151,
    ];
    assert(r@ =~= gateway_address());
    r
}

/// The system program's address: thirty-two zero bytes.
pub open spec fn system_program_address() -> Seq<u8> {
    Seq::new(32, |i: int| 0u8)
}

/// The asset protocol's address, `CoREENxT6tW1HoK8ypY1SxRMZTcVPm7R94rH4PZNhX7d` in base58.
pub open spec fn mpl_core_address() -> Seq<u8> {
    seq![
        175u8, 84, 171, 16, 189, 151, 165, 66, 160, 158, 247, 179, 152, 137, 221, 12,
        211, 148, 164, 204, 233, 223, 166, 205, 201, 126, 190, 45, 35, 91, 167, 72,
    ]
}

/// Relies on `solana_sdk_ids::system_program::ID`, declared there from the base58 text
/// "11111111111111111111111111111111", which is thirty-two zero bytes.
#[verifier::external_body]
fn system_program_key() -> (r: [u8; 32])
    ensures
        r@ == system_program_address(),
{
    solana_sdk_ids::system_program::ID.to_bytes()
}

/// Relies on `mpl_core::ID`, declared there from the base58 text
/// "CoREENxT6tW1HoK8ypY1SxRMZTcVPm7R94rH4PZNhX7d".
#[verifier::external_body]
fn mpl_core_key() -> (r: [u8; 32])
    ensures
        r@ == mpl_core_address(),
{
    mpl_core::ID.to_bytes()
}

impl ProgramIds {
    /// The well-known runtime and asset-protocol identities.
    pub fn new() -> (r: ProgramIds)
        ensures
            r.system_program@ == system_program_address(),
            r.mpl_core@ == mpl_core_address(),
    {
        ProgramIds { system_program: system_program_key(), mpl_core: mpl_core_key() }
    }
}

/// Whether two addresses are the same.
pub fn same_address(a: &[u8; 32], b: &[u8; 32]) -> (r: bool)
    ensures
        r == (a@ == b@),
{
    let mut i: usize = 0;
    while i < 32
        invariant
            i <= 32,
            a@.len() == 32,
            b@.len() == 32,
            forall|j: int| 0 <= j < i ==> a@[j] == b@[j],
        decreases 32 - i,
    {
        if a[i] != b[i] {
            return false;
        }
        i = i + 1;
    }
    assert(a@ =~= b@);
    true
}

/// The account as an optional role: `None` when the slot holds the "no account" marker.
pub fn to_optional<'a>(acc: &'a AccountRef) -> (r: Option<&'a AccountRef>)
    ensures
        r == (if acc.is_absent() { None } else { Some(acc) }),
{
    if same_address(&acc.key, &gateway_key()) {
        None
    } else {
        Some(acc)
    }
}

} // verus!
