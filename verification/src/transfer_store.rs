//! The persisted transfer queue: where its database lives, the schema
//! version it is written with, and which tasks clearing removes. The
//! database itself (redb) and the encoding of tasks stay with the caller.

use vstd::prelude::*;
use crate::remote_paths::{local_join, local_join_spec};
use crate::sftp_queue::TransferTaskState;

verus! {

pub const TRANSFER_STORE_SCHEMA_VERSION: u64 = 1;
pub const METADATA_SCHEMA_VERSION_KEY: &'static str = "schema_version";
pub const METADATA_TABLE_NAME: &'static str = "sftp_transfer_metadata";
pub const TASKS_TABLE_NAME: &'static str = "sftp_transfer_tasks";

pub struct RedbTransferStore {
    pub data_dir: String,
    pub database_path: String,
}

impl RedbTransferStore {
    /// The store kept in `data_dir`, in the file `transfers.redb`.
    pub fn new(data_dir: String) -> (r: Self)
        ensures
            r.data_dir@ == data_dir@,
            r.database_path@ == local_join_spec(data_dir@, "transfers.redb"@),
    {
        let database_path = local_join(data_dir.as_str(), "transfers.redb");
        RedbTransferStore { data_dir, database_path }
    }
}

/// The number whose little-endian bytes are `b`.
pub open spec fn le_value(b: Seq<u8>) -> nat
    decreases b.len(),
{
    if b.len() == 0 {
        0
    } else {
        b[0] as nat + 256 * le_value(b.drop_first())
    }
}

pub open spec fn pow256(k: nat) -> nat
    decreases k,
{
    if k == 0 { 1 } else { 256 * pow256((k - 1) as nat) }
}

/// `n` as eight little-endian bytes.
pub fn encode_schema_version(n: u64) -> (r: Vec<u8>)
    ensures
        r@.len() == 8,
        le_value(r@) == n,
{
    let mut bytes: Vec<u8> = Vec::new();
    let mut rest: u64 = n;
    let mut i: usize = 0;
    proof { lemma_pow256_8(); }
    assert(le_value(bytes@) == 0);
    while i < 8
        invariant
            i <= 8,
            bytes@.len() == i,
            le_value(bytes@) + pow256(i as nat) * rest == n,
            rest < pow256((8 - i) as nat) || i == 0,
        decreases 8 - i,
    {
        let b = (rest % 256) as u8;
        let ghost old_rest = rest;
        let ghost old_bytes = bytes@;
        bytes.push(b);
        rest = rest / 256;
        proof {
            lemma_le_value_push(old_bytes, b);
            assert(pow256((i + 1) as nat) == 256 * pow256(i as nat));
            assert(old_rest == 256 * rest + b) by (nonlinear_arith)
                requires
                    b == old_rest % 256,
                    rest == old_rest / 256;
            assert(pow256(i as nat) * old_rest == pow256(i as nat) * b + pow256((i + 1) as nat) * rest) by (nonlinear_arith)
                requires
                    old_rest == 256 * rest + b,
                    pow256((i + 1) as nat) == 256 * pow256(i as nat);
            lemma_pow256_8();
            if i > 0 {
                assert(rest < pow256((8 - (i + 1)) as nat)) by (nonlinear_arith)
                    requires
                        old_rest < pow256((8 - i) as nat),
                        pow256((8 - i) as nat) == 256 * pow256((8 - (i + 1)) as nat),
                        rest == old_rest / 256;
            } else {
                assert(rest < pow256(7)) by (nonlinear_arith)
                    requires
                        old_rest < 0x1_0000_0000_0000_0000,
                        pow256(7) == 0x100_0000_0000_0000,
                        rest == old_rest / 256;
            }
        }
        i = i + 1;
    }
    proof {
        assert(pow256(0) == 1);
        if rest > 0 {
            assert(rest < 1);
        }
    }
    bytes
}

proof fn lemma_pow256_8()
    ensures
        pow256(0) == 1,
        pow256(1) == 256,
        pow256(7) == 0x100_0000_0000_0000,
        pow256(8) == 0x1_0000_0000_0000_0000,
{
    reveal_with_fuel(pow256, 9);
}

proof fn lemma_le_value_push(b: Seq<u8>, x: u8)
    ensures
        le_value(b.push(x)) == le_value(b) + pow256(b.len()) * x,
    decreases b.len(),
{
    if b.len() == 0 {
        assert(b.push(x).drop_first() =~= Seq::<u8>::empty());
        assert(b.push(x)[0] == x);
        assert(le_value(b.push(x)) == x as nat + 256 * le_value(Seq::<u8>::empty()));
        assert(pow256(0) == 1);
    } else {
        assert(b.push(x).drop_first() =~= b.drop_first().push(x));
        assert(b.push(x)[0] == b[0]);
        lemma_le_value_push(b.drop_first(), x);
        let a = le_value(b.drop_first());
        let p = pow256((b.len() - 1) as nat);
        assert(pow256(b.len()) == 256 * p);
        assert(256 * (a + p * x) == 256 * a + (256 * p) * x) by (nonlinear_arith);
        assert(le_value(b.push(x)) == b[0] as nat + 256 * le_value(b.drop_first().push(x)));
        assert(le_value(b) == b[0] as nat + 256 * a);
    }
}

#[derive(Debug, Clone, PartialEq, Eq)]
pub enum TransferStoreError {
    /// The stored schema version is not eight bytes.
    InvalidSchemaVersionPayload,
    /// The store was written by a newer version of the program.
    NewerSchema { found: u64, supported: u64 },
}

/// Reads a stored schema version: exactly eight little-endian bytes.
pub fn decode_schema_version(bytes: &[u8]) -> (r: Result<u64, TransferStoreError>)
    ensures
        match r {
            Ok(v) => bytes@.len() == 8 && v == le_value(bytes@),
            Err(e) => bytes@.len() != 8 && e == TransferStoreError::InvalidSchemaVersionPayload,
        },
{
    if bytes.len() != 8 {
        return Err(TransferStoreError::InvalidSchemaVersionPayload);
    }
    let mut acc: u64 = 0;
    let mut i: usize = 8;
    while i > 0
        invariant
            i <= 8,
            bytes@.len() == 8,
            acc == le_value(bytes@.skip(i as int)),
            acc < pow256((8 - i) as nat),
        decreases i,
    {
        let b = bytes[i - 1];
        proof {
            let s = bytes@.skip(i - 1);
            assert(s[0] == b);
            assert(s.drop_first() =~= bytes@.skip(i as int));
            assert(pow256((8 - i + 1) as nat) == 256 * pow256((8 - i) as nat));
            lemma_pow256_8();
            lemma_pow256_mono((8 - i + 1) as nat);
            assert(256 * acc + b < 256 * pow256((8 - i) as nat)) by (nonlinear_arith)
                requires
                    acc < pow256((8 - i) as nat),
                    b < 256;
        }
        acc = acc * 256 + b as u64;
        i = i - 1;
    }
    assert(bytes@.skip(0) =~= bytes@);
    Ok(acc)
}

/// Eight stored bytes and the version they hold determine each other: a
/// version written by `encode_schema_version` reads back unchanged through
/// `decode_schema_version`, and bytes that decode to a version are exactly
/// the bytes that encoding that version writes.
pub proof fn lemma_schema_version_round_trip(written: Seq<u8>, stored: Seq<u8>)
    requires
        written.len() == stored.len(),
    ensures
        le_value(written) == le_value(stored) <==> written == stored,
    decreases written.len(),
{
    if written.len() > 0 && le_value(written) == le_value(stored) {
        let a = le_value(written.drop_first());
        let b = le_value(stored.drop_first());
        assert(written[0] + 256 * a == stored[0] + 256 * b);
        assert(written[0] == stored[0] && a == b);
        lemma_schema_version_round_trip(written.drop_first(), stored.drop_first());
        assert forall|i: int| 0 <= i < written.len() implies written[i] == stored[i] by {
            if i > 0 {
                assert(written[i] == written.drop_first()[i - 1]);
                assert(stored[i] == stored.drop_first()[i - 1]);
            }
        }
        assert(written =~= stored);
    } else if written.len() == 0 {
        assert(written =~= stored);
    }
}

proof fn lemma_pow256_mono(k: nat)
    requires
        k <= 8,
    ensures
        pow256(k) <= 0x1_0000_0000_0000_0000,
    decreases k,
{
    reveal_with_fuel(pow256, 9);
}

/// A store may be read when it was written with at most the supported
/// schema; a store without a recorded version counts as current.
pub fn check_schema_version(stored: Option<u64>) -> (r: Result<u64, TransferStoreError>)
    ensures
        match stored {
            None => r == Ok::<u64, TransferStoreError>(TRANSFER_STORE_SCHEMA_VERSION),
            Some(v) => if v > TRANSFER_STORE_SCHEMA_VERSION {
                r == Err::<u64, TransferStoreError>(TransferStoreError::NewerSchema {
                    found: v,
                    supported: TRANSFER_STORE_SCHEMA_VERSION,
                })
            } else {
                r == Ok::<u64, TransferStoreError>(v)
            },
        },
{
    let v = match stored {
        Some(v) => v,
        None => TRANSFER_STORE_SCHEMA_VERSION,
    };
    if v > TRANSFER_STORE_SCHEMA_VERSION {
        Err(TransferStoreError::NewerSchema { found: v, supported: TRANSFER_STORE_SCHEMA_VERSION })
    } else {
        Ok(v)
    }
}

/// Clearing the store removes the finished tasks: completed and cancelled ones.
pub fn is_removable_task_state(state: TransferTaskState) -> (r: bool)
    ensures
        r == (state == TransferTaskState::Completed || state == TransferTaskState::Cancelled),
{
    match state {
        TransferTaskState::Completed | TransferTaskState::Cancelled => true,
        _ => false,
    }
}

} // verus!
