use vstd::prelude::*;

use crate::account::{same_address, AccountRef, ProgramIds};

verus! {

/// A capability that a role may demand of its account.
#[derive(Clone, Copy, Debug, PartialEq, Eq, Structural)]
pub enum Requirement {
    /// The account is writable.
    Writable,
    /// The account signed the transaction.
    Signer,
    /// The account is the runtime's system program itself.
    SystemProgramId,
    /// The account is owned by the runtime's system program.
    SystemOwned,
    /// The account is the asset protocol itself.
    MplCoreProgram,
}

/// Why a single capability check failed.
#[derive(Clone, Copy, Debug, PartialEq, Eq, Structural)]
pub enum CheckError {
    NotWritable,
    NotSigner,
    InvalidSystemProgram,
    InvalidProgramOwner,
    InvalidAssetProtocol,
}

/// The account has the capability.
pub open spec fn meets(acc: AccountRef, req: Requirement, ids: ProgramIds) -> bool {
    match req {
        Requirement::Writable => acc.is_writable,
        Requirement::Signer => acc.is_signer,
        Requirement::SystemProgramId => acc.key@ == ids.system_program@,
        Requirement::SystemOwned => acc.owner@ == ids.system_program@,
        Requirement::MplCoreProgram => acc.key@ == ids.mpl_core@,
    }
}

/// The failure that reports a missing capability.
pub open spec fn error_for(req: Requirement) -> CheckError {
    match req {
        Requirement::Writable => CheckError::NotWritable,
        Requirement::Signer => CheckError::NotSigner,
        Requirement::SystemProgramId => CheckError::InvalidSystemProgram,
        Requirement::SystemOwned => CheckError::InvalidProgramOwner,
        Requirement::MplCoreProgram => CheckError::InvalidAssetProtocol,
    }
}

/// The outcome of checking one capability on one account.
pub open spec fn check_outcome(acc: AccountRef, req: Requirement, ids: ProgramIds) -> Result<
    (),
    CheckError,
> {
    if meets(acc, req, ids) {
        Ok(())
    } else {
        Err(error_for(req))
    }
}

/// Fails `NotWritable` unless the account is writable.
pub fn check_writable(acc: &AccountRef) -> (r: Result<(), CheckError>)
    ensures
        r == (if acc.is_writable { Ok(()) } else { Err(CheckError::NotWritable) }),
{
    if acc.is_writable {
        Ok(())
    } else {
        Err(CheckError::NotWritable)
    }
}

/// Fails `NotSigner` unless the account signed.
pub fn check_signer(acc: &AccountRef) -> (r: Result<(), CheckError>)
    ensures
        r == (if acc.is_signer { Ok(()) } else { Err(CheckError::NotSigner) }),
{
    if acc.is_signer {
        Ok(())
    } else {
        Err(CheckError::NotSigner)
    }
}

/// Fails `InvalidSystemProgram` unless the account is the system program.
pub fn check_system_program(acc: &AccountRef, ids: &ProgramIds) -> (r: Result<(), CheckError>)
    ensures
        r == (if acc.key@ == ids.system_program@ {
            Ok(())
        } else {
            Err(CheckError::InvalidSystemProgram)
        }),
{
    if same_address(&acc.key, &ids.system_program) {
        Ok(())
    } else {
        Err(CheckError::InvalidSystemProgram)
    }
}

/// Fails `InvalidProgramOwner` unless the system program owns the account.
pub fn check_system_owned(acc: &AccountRef, ids: &ProgramIds) -> (r: Result<(), CheckError>)
    ensures
        r == (if acc.owner@ == ids.system_program@ {
            Ok(())
        } else {
            Err(CheckError::InvalidProgramOwner)
        }),
{
    if same_address(&acc.owner, &ids.system_program) {
        Ok(())
    } else {
        Err(CheckError::InvalidProgramOwner)
    }
}

/// Fails `InvalidAssetProtocol` unless the account is the asset protocol.
pub fn check_mpl_core(acc: &AccountRef, ids: &ProgramIds) -> (r: Result<(), CheckError>)
    ensures
        r == (if acc.key@ == ids.mpl_core@ {
            Ok(())
        } else {
            Err(CheckError::InvalidAssetProtocol)
        }),
{
    if same_address(&acc.key, &ids.mpl_core) {
        Ok(())
    } else {
        Err(CheckError::InvalidAssetProtocol)
    }
}

/// Checks one capability on a present account.
pub fn check(acc: &AccountRef, req: Requirement, ids: &ProgramIds) -> (r: Result<(), CheckError>)
    ensures
        r == check_outcome(*acc, req, *ids),
{
    match req {
        Requirement::Writable => check_writable(acc),
        Requirement::Signer => check_signer(acc),
        Requirement::SystemProgramId => check_system_program(acc, ids),
        Requirement::SystemOwned => check_system_owned(acc, ids),
        Requirement::MplCoreProgram => check_mpl_core(acc, ids),
    }
}

/// Checks one capability on an optional account: an absent one passes unchecked.
pub fn check_optional(acc: Option<&AccountRef>, req: Requirement, ids: &ProgramIds) -> (r: Result<
    (),
    CheckError,
>)
    ensures
        r == (match acc {
            None => Ok(()),
            Some(a) => check_outcome(*a, req, *ids),
        }),
{
    match acc {
        None => Ok(()),
        Some(a) => check(a, req, ids),
    }
}

} // verus!
