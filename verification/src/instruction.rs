use vstd::bytes::*;
use vstd::prelude::*;

use crate::error::ClickerError;

verus! {

/// The closed set of commands the core accepts, decoded from a versionless
/// tagged-union binary encoding: a one-byte discriminant tag followed by the
/// payload fields, fixed-width and little-endian, in declaration order.
#[derive(Clone, Copy, Debug, PartialEq, Eq, Structural)]
pub enum SolanaClickerInstructions {
    /// Allocate and write a fresh user-state record.
    InitUser,
    /// Add the earn rate to the click balance.
    Click,
    /// Purchase one of the two upgrade paths.
    UpgradeValuePerClick { variation: u8 },
    /// Move clicks from a sender's record to a recipient's record.
    TransferClicks { value: u64 },
}

impl SolanaClickerInstructions {
    /// The wire encoding of a command.
    pub open spec fn spec_to_bytes(self) -> Seq<u8> {
        match self {
            SolanaClickerInstructions::InitUser => seq![0u8],
            SolanaClickerInstructions::Click => seq![1u8],
            SolanaClickerInstructions::UpgradeValuePerClick { variation } => seq![2u8, variation],
            SolanaClickerInstructions::TransferClicks { value } => seq![3u8]
                + spec_u64_to_le_bytes(value),
        }
    }

    /// The command a buffer decodes to.  An unrecognized tag, a truncated
    /// payload or trailing bytes is a decode error.
    pub open spec fn spec_decode(bytes: Seq<u8>) -> Result<
        SolanaClickerInstructions,
        ClickerError,
    > {
        if bytes.len() == 1 && bytes[0] == 0 {
            Ok(SolanaClickerInstructions::InitUser)
        } else if bytes.len() == 1 && bytes[0] == 1 {
            Ok(SolanaClickerInstructions::Click)
        } else if bytes.len() == 2 && bytes[0] == 2 {
            Ok(SolanaClickerInstructions::UpgradeValuePerClick { variation: bytes[1] })
        } else if bytes.len() == 9 && bytes[0] == 3 {
            Ok(
                SolanaClickerInstructions::TransferClicks {
                    value: spec_u64_from_le_bytes(bytes.subrange(1, 9)),
                },
            )
        } else {
            Err(ClickerError::DecodeError)
        }
    }

    /// Serialize this command into its wire encoding.
    pub fn to_bytes(&self) -> (r: Vec<u8>)
        ensures
            r@ == self.spec_to_bytes(),
    {
        match self {
            SolanaClickerInstructions::InitUser => {
                let out: Vec<u8> = vec![0u8];
                proof {
                    assert(out@ =~= self.spec_to_bytes());
                }
                out
            },
            SolanaClickerInstructions::Click => {
                let out: Vec<u8> = vec![1u8];
                proof {
                    assert(out@ =~= self.spec_to_bytes());
                }
                out
            },
            SolanaClickerInstructions::UpgradeValuePerClick { variation } => {
                let out: Vec<u8> = vec![2u8, *variation];
                proof {
                    assert(out@ =~= self.spec_to_bytes());
                }
                out
            },
            SolanaClickerInstructions::TransferClicks { value } => {
                let mut out: Vec<u8> = vec![3u8];
                let mut payload = u64_to_le_bytes(*value);
                out.append(&mut payload);
                proof {
                    assert(out@ =~= self.spec_to_bytes());
                }
                out
            },
        }
    }

    /// Decode a command from an instruction buffer.
    pub fn try_from_slice(bytes: &[u8]) -> (r: Result<SolanaClickerInstructions, ClickerError>)
        ensures
            r == Self::spec_decode(bytes@),
    {
        if bytes.len() == 0 {
            return Err(ClickerError::DecodeError);
        }
        let tag = *vstd::slice::slice_index_get(bytes, 0);
        if tag == 0 && bytes.len() == 1 {
            Ok(SolanaClickerInstructions::InitUser)
        } else if tag == 1 && bytes.len() == 1 {
            Ok(SolanaClickerInstructions::Click)
        } else if tag == 2 && bytes.len() == 2 {
            let variation = *vstd::slice::slice_index_get(bytes, 1);
            Ok(SolanaClickerInstructions::UpgradeValuePerClick { variation })
        } else if tag == 3 && bytes.len() == 9 {
            let value = u64_from_le_bytes(vstd::slice::slice_subrange(bytes, 1, 9));
            Ok(SolanaClickerInstructions::TransferClicks { value })
        } else {
            Err(ClickerError::DecodeError)
        }
    }

    /// Decoding inverts encoding: every command's wire bytes decode back to
    /// that command.
    pub proof fn lemma_decode_of_encode(c: SolanaClickerInstructions)
        ensures
            Self::spec_decode(c.spec_to_bytes()) == Ok::<SolanaClickerInstructions, ClickerError>(
                c,
            ),
    {
        lemma_auto_spec_u64_to_from_le_bytes();
        match c {
            SolanaClickerInstructions::TransferClicks { value } => {
                let b = c.spec_to_bytes();
                assert(b.subrange(1, 9) =~= spec_u64_to_le_bytes(value));
            },
            _ => {},
        }
    }

    /// Encoding inverts decoding: a buffer that decodes to a command is that
    /// command's wire bytes, so decoding accepts no buffer besides the four
    /// commands' encodings.
    pub proof fn lemma_encode_of_decode(bytes: Seq<u8>, c: SolanaClickerInstructions)
        requires
            Self::spec_decode(bytes) == Ok::<SolanaClickerInstructions, ClickerError>(c),
        ensures
            c.spec_to_bytes() == bytes,
    {
        lemma_auto_spec_u64_to_from_le_bytes();
        if bytes.len() == 9 && bytes[0] == 3 {
            assert(c.spec_to_bytes() =~= bytes);
        } else {
            assert(c.spec_to_bytes() =~= bytes);
        }
    }

    /// A buffer with an unrecognized leading tag, and a truncated or padded
    /// transfer payload, is rejected by the decoder and never reaches the
    /// engine.
    pub proof fn lemma_decode_rejection(bytes: Seq<u8>)
        requires
            bytes.len() == 0 || bytes[0] > 3 || (bytes[0] == 3 && bytes.len() != 9),
        ensures
            Self::spec_decode(bytes) == Err::<SolanaClickerInstructions, ClickerError>(
                ClickerError::DecodeError,
            ),
    {
    }
}

} // verus!
