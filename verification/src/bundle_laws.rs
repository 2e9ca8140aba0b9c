//! What the changes of a block and their selection amount to, said of the accounts themselves.

use crate::bundle::{
    account_views, covered_accounts, override_account, written_slots, BundleAccount, BundleState,
    RootScope,
};
use crate::bytes::{
    address_number, be_value, lemma_be_value_injective, lemma_be_value_of_address,
};
use crate::primitives::{Address, B256};
use crate::storage_keys::{key_set, slot_set};
use vstd::prelude::*;

verus! {

/// The addresses of the accounts whose root host execution reports.
pub open spec fn is_host_account(address: Seq<u8>) -> bool {
    ||| address == seq![
        0x00u8, 0x00, 0x00, 0x62, 0x9f, 0xbc, 0xf2, 0x7a, 0x34, 0x7d,
        0x1a, 0xeb, 0xa6, 0x58, 0x43, 0x52, 0x30, 0xd7, 0x4a, 0x5f,
    ]
    ||| address == seq![
        0x03u8, 0x7d, 0xd4, 0x8f, 0xfd, 0x09, 0xfb, 0xdc, 0x1e, 0x38,
        0x5f, 0xef, 0xda, 0x48, 0xc6, 0xe1, 0xef, 0x13, 0x82, 0xaf,
    ]
    ||| address == seq![
        0x06u8, 0xa9, 0xab, 0x27, 0xc7, 0xe2, 0x25, 0x5d, 0xf1, 0x81,
        0x5e, 0x6c, 0xc0, 0x16, 0x8d, 0x77, 0x55, 0xfe, 0xb1, 0x9a,
    ]
    ||| address == seq![
        0x08u8, 0xe9, 0x6f, 0x30, 0x8e, 0xb0, 0x08, 0xb3, 0xdb, 0x68,
        0x64, 0x0a, 0xba, 0x6b, 0x06, 0x07, 0x86, 0x25, 0xf8, 0xcd,
    ]
    ||| address == seq![
        0x0du8, 0x07, 0x07, 0x96, 0x39, 0x52, 0xf2, 0xfb, 0xa5, 0x9d,
        0xd0, 0x6f, 0x2b, 0x42, 0x5a, 0xce, 0x40, 0xb4, 0x92, 0xfe,
    ]
    ||| address == seq![
        0x11u8, 0x11, 0x11, 0x12, 0x54, 0x21, 0xca, 0x6d, 0xc4, 0x52,
        0xd2, 0x89, 0x31, 0x42, 0x80, 0xa0, 0xf8, 0x84, 0x2a, 0x65,
    ]
    ||| address == seq![
        0x12u8, 0x10, 0x67, 0x58, 0xe0, 0x36, 0x13, 0xe6, 0x6f, 0xa9,
        0x62, 0x09, 0x92, 0x79, 0x40, 0xc8, 0x25, 0xe8, 0x5f, 0xff,
    ]
    ||| address == seq![
        0x15u8, 0x16, 0x00, 0x83, 0x76, 0x54, 0x3c, 0x28, 0x36, 0x54,
        0xf6, 0x0b, 0x03, 0xa2, 0x8e, 0x1c, 0x99, 0x30, 0x80, 0x6a,
    ]
    ||| address == seq![
        0x16u8, 0xc0, 0x82, 0x9d, 0xd6, 0x01, 0x24, 0xf2, 0xa7, 0xd4,
        0x9a, 0x5e, 0x76, 0x8f, 0x79, 0x78, 0xa5, 0x7c, 0x23, 0x93,
    ]
    ||| address == seq![
        0x17u8, 0x28, 0xd7, 0x09, 0x9f, 0x65, 0x35, 0xf5, 0xef, 0xeb,
        0xa7, 0x84, 0xa4, 0xba, 0x54, 0x12, 0x0c, 0xea, 0xda, 0x6b,
    ]
    ||| address == seq![
        0x1du8, 0x71, 0xeb, 0x5d, 0x4f, 0x05, 0x88, 0x4a, 0xdd, 0x4d,
        0x8e, 0x8a, 0x4d, 0x31, 0xee, 0xf3, 0xa4, 0x26, 0x3c, 0x47,
    ]
    ||| address == seq![
        0x23u8, 0x52, 0x9b, 0x46, 0xbb, 0x5f, 0xdb, 0x9f, 0x9d, 0x04,
        0x27, 0xe9, 0xa3, 0x51, 0x15, 0x55, 0x1b, 0x72, 0x58, 0x1b,
    ]
    ||| address == seq![
        0x23u8, 0x94, 0x26, 0xc2, 0xfe, 0xda, 0x17, 0xd1, 0x06, 0x35,
        0xb6, 0xe7, 0xd1, 0xcf, 0xca, 0x9a, 0xb3, 0x3a, 0xb2, 0x22,
    ]
    ||| address == seq![
        0x26u8, 0xc1, 0x08, 0x7b, 0x6a, 0x65, 0x8c, 0x10, 0x67, 0x68,
        0xee, 0xa1, 0x93, 0x1e, 0x08, 0x3c, 0xe4, 0x69, 0xf2, 0x0c,
    ]
    ||| address == seq![
        0x30u8, 0xda, 0xff, 0x27, 0xda, 0x01, 0x2e, 0x11, 0x8c, 0x07,
        0xfa, 0xe5, 0x38, 0x0e, 0xb0, 0x6f, 0x70, 0x7c, 0x5c, 0xe4,
    ]
    ||| address == seq![
        0x34u8, 0x0d, 0x2b, 0xde, 0x5e, 0xb2, 0x8c, 0x1e, 0xed, 0x91,
        0xb2, 0xf7, 0x90, 0x72, 0x3e, 0x3b, 0x16, 0x06, 0x13, 0xb7,
    ]
    ||| address == seq![
        0x37u8, 0x77, 0x26, 0x1f, 0xd6, 0xe1, 0xec, 0x07, 0x04, 0x73,
        0x5d, 0x49, 0x13, 0x28, 0x21, 0x5b, 0x9f, 0x58, 0x25, 0xb1,
    ]
    ||| address == seq![
        0x42u8, 0x80, 0xb1, 0x0e, 0x7c, 0xd1, 0x21, 0x71, 0xe9, 0x44,
        0x40, 0x1e, 0x40, 0x18, 0x25, 0x0d, 0x20, 0x52, 0xa0, 0xd6,
    ]
    ||| address == seq![
        0x4au8, 0x55, 0x65, 0xdb, 0x65, 0x15, 0x92, 0x34, 0x18, 0xbb,
        0x9a, 0xb1, 0xa8, 0xad, 0x81, 0x6e, 0x85, 0xc1, 0x2f, 0xf4,
    ]
    ||| address == seq![
        0x4cu8, 0xff, 0x49, 0xd0, 0xa1, 0x9e, 0xd6, 0xff, 0x84, 0x5a,
        0x91, 0x22, 0xfa, 0x91, 0x2a, 0xbc, 0xfb, 0x1f, 0x68, 0xa6,
    ]
    ||| address == seq![
        0x4du8, 0x22, 0x44, 0x52, 0x80, 0x1a, 0xce, 0xd8, 0xb2, 0xf0,
        0xae, 0xbe, 0x15, 0x53, 0x79, 0xbb, 0x5d, 0x59, 0x43, 0x81,
    ]
    ||| address == seq![
        0x4du8, 0x9f, 0xf5, 0x0e, 0xf4, 0xda, 0x94, 0x73, 0x64, 0xbb,
        0x96, 0x50, 0x89, 0x2b, 0x25, 0x54, 0xe7, 0xbe, 0x5e, 0x2b,
    ]
    ||| address == seq![
        0x5cu8, 0x95, 0x38, 0x08, 0x5f, 0xdf, 0xce, 0x74, 0x70, 0xe6,
        0x6f, 0x7c, 0x3e, 0x1b, 0x1f, 0x0f, 0x01, 0xd9, 0x69, 0xaa,
    ]
    ||| address == seq![
        0x5fu8, 0xaa, 0x98, 0x9a, 0xf9, 0x6a, 0xf8, 0x53, 0x84, 0xb8,
        0xa9, 0x38, 0xc2, 0xed, 0xe4, 0xa7, 0x37, 0x8d, 0x98, 0x75,
    ]
    ||| address == seq![
        0x67u8, 0x1e, 0x1c, 0x28, 0x9f, 0x45, 0xcc, 0xaa, 0x82, 0x84,
        0x35, 0x01, 0xc7, 0xbc, 0x84, 0x1b, 0xa2, 0x6b, 0x97, 0xf1,
    ]
}

/// The addresses of the accounts whose root a replay takes.
pub open spec fn is_replay_account(address: Seq<u8>) -> bool {
    ||| address == seq![
        0x00u8, 0x00, 0x00, 0x62, 0x9f, 0xbc, 0xf2, 0x7a, 0x34, 0x7d,
        0x1a, 0xeb, 0xa6, 0x58, 0x43, 0x52, 0x30, 0xd7, 0x4a, 0x5f,
    ]
    ||| address == seq![
        0x03u8, 0x7d, 0xd4, 0x8f, 0xfd, 0x09, 0xfb, 0xdc, 0x1e, 0x38,
        0x5f, 0xef, 0xda, 0x48, 0xc6, 0xe1, 0xef, 0x13, 0x82, 0xaf,
    ]
    ||| address == seq![
        0x30u8, 0xda, 0xff, 0x27, 0xda, 0x01, 0x2e, 0x11, 0x8c, 0x07,
        0xfa, 0xe5, 0x38, 0x0e, 0xb0, 0x6f, 0x70, 0x7c, 0x5c, 0xe4,
    ]
    ||| address == seq![
        0x37u8, 0x77, 0x26, 0x1f, 0xd6, 0xe1, 0xec, 0x07, 0x04, 0x73,
        0x5d, 0x49, 0x13, 0x28, 0x21, 0x5b, 0x9f, 0x58, 0x25, 0xb1,
    ]
    ||| address == seq![
        0x67u8, 0x1e, 0x1c, 0x28, 0x9f, 0x45, 0xcc, 0xaa, 0x82, 0x84,
        0x35, 0x01, 0xc7, 0xbc, 0x84, 0x1b, 0xa2, 0x6b, 0x97, 0xf1,
    ]
    ||| address == seq![
        0xf7u8, 0x0d, 0xa9, 0x78, 0x12, 0xcb, 0x96, 0xac, 0xdf, 0x81,
        0x07, 0x12, 0xaa, 0x56, 0x2d, 0xb8, 0xdf, 0xa3, 0xdb, 0xef,
    ]
}

/// The address of the account whose balance a replay sets.
pub open spec fn is_overridden_account(address: Seq<u8>) -> bool {
    address == seq![
        0x00u8, 0x00, 0x00, 0x62, 0x9f, 0xbc, 0xf2, 0x7a, 0x34, 0x7d,
        0x1a, 0xeb, 0xa6, 0x58, 0x43, 0x52, 0x30, 0xd7, 0x4a, 0x5f,
    ]
}

proof fn lemma_address_number(address: Seq<u8>, other: Seq<u8>, number: int)
    requires
        address.len() == 20,
        other.len() == 20,
        address_number(other) == number,
    ensures
        be_value(address) == number <==> address == other,
{
    lemma_be_value_of_address(other);
    if be_value(address) == number {
        lemma_be_value_injective(address, other);
    }
}

/// A scope covers the accounts with these addresses.
pub proof fn lemma_covers(scope: RootScope, address: Seq<u8>)
    requires
        address.len() == 20,
    ensures
        scope == RootScope::Host ==> (scope.covers(address) <==> is_host_account(address)),
        scope == RootScope::Replay ==> (scope.covers(address) <==> is_replay_account(address)),
{
    lemma_address_number(
        address,
        seq![
            0x00u8, 0x00, 0x00, 0x62, 0x9f, 0xbc, 0xf2, 0x7a, 0x34, 0x7d,
            0x1a, 0xeb, 0xa6, 0x58, 0x43, 0x52, 0x30, 0xd7, 0x4a, 0x5f,
        ],
        0x000000629fbcf27a347d1aeba658435230d74a5fint,
    );
    lemma_address_number(
        address,
        seq![
            0x03u8, 0x7d, 0xd4, 0x8f, 0xfd, 0x09, 0xfb, 0xdc, 0x1e, 0x38,
            0x5f, 0xef, 0xda, 0x48, 0xc6, 0xe1, 0xef, 0x13, 0x82, 0xaf,
        ],
        0x037dd48ffd09fbdc1e385fefda48c6e1ef1382afint,
    );
    lemma_address_number(
        address,
        seq![
            0x06u8, 0xa9, 0xab, 0x27, 0xc7, 0xe2, 0x25, 0x5d, 0xf1, 0x81,
            0x5e, 0x6c, 0xc0, 0x16, 0x8d, 0x77, 0x55, 0xfe, 0xb1, 0x9a,
        ],
        0x06a9ab27c7e2255df1815e6cc0168d7755feb19aint,
    );
    lemma_address_number(
        address,
        seq![
            0x08u8, 0xe9, 0x6f, 0x30, 0x8e, 0xb0, 0x08, 0xb3, 0xdb, 0x68,
            0x64, 0x0a, 0xba, 0x6b, 0x06, 0x07, 0x86, 0x25, 0xf8, 0xcd,
        ],
        0x08e96f308eb008b3db68640aba6b06078625f8cdint,
    );
    lemma_address_number(
        address,
        seq![
            0x0du8, 0x07, 0x07, 0x96, 0x39, 0x52, 0xf2, 0xfb, 0xa5, 0x9d,
            0xd0, 0x6f, 0x2b, 0x42, 0x5a, 0xce, 0x40, 0xb4, 0x92, 0xfe,
        ],
        0x0d0707963952f2fba59dd06f2b425ace40b492feint,
    );
    lemma_address_number(
        address,
        seq![
            0x11u8, 0x11, 0x11, 0x12, 0x54, 0x21, 0xca, 0x6d, 0xc4, 0x52,
            0xd2, 0x89, 0x31, 0x42, 0x80, 0xa0, 0xf8, 0x84, 0x2a, 0x65,
        ],
        0x111111125421ca6dc452d289314280a0f8842a65int,
    );
    lemma_address_number(
        address,
        seq![
            0x12u8, 0x10, 0x67, 0x58, 0xe0, 0x36, 0x13, 0xe6, 0x6f, 0xa9,
            0x62, 0x09, 0x92, 0x79, 0x40, 0xc8, 0x25, 0xe8, 0x5f, 0xff,
        ],
        0x12106758e03613e66fa96209927940c825e85fffint,
    );
    lemma_address_number(
        address,
        seq![
            0x15u8, 0x16, 0x00, 0x83, 0x76, 0x54, 0x3c, 0x28, 0x36, 0x54,
            0xf6, 0x0b, 0x03, 0xa2, 0x8e, 0x1c, 0x99, 0x30, 0x80, 0x6a,
        ],
        0x1516008376543c283654f60b03a28e1c9930806aint,
    );
    lemma_address_number(
        address,
        seq![
            0x16u8, 0xc0, 0x82, 0x9d, 0xd6, 0x01, 0x24, 0xf2, 0xa7, 0xd4,
            0x9a, 0x5e, 0x76, 0x8f, 0x79, 0x78, 0xa5, 0x7c, 0x23, 0x93,
        ],
        0x16c0829dd60124f2a7d49a5e768f7978a57c2393int,
    );
    lemma_address_number(
        address,
        seq![
            0x17u8, 0x28, 0xd7, 0x09, 0x9f, 0x65, 0x35, 0xf5, 0xef, 0xeb,
            0xa7, 0x84, 0xa4, 0xba, 0x54, 0x12, 0x0c, 0xea, 0xda, 0x6b,
        ],
        0x1728d7099f6535f5efeba784a4ba54120ceada6bint,
    );
    lemma_address_number(
        address,
        seq![
            0x1du8, 0x71, 0xeb, 0x5d, 0x4f, 0x05, 0x88, 0x4a, 0xdd, 0x4d,
            0x8e, 0x8a, 0x4d, 0x31, 0xee, 0xf3, 0xa4, 0x26, 0x3c, 0x47,
        ],
        0x1d71eb5d4f05884add4d8e8a4d31eef3a4263c47int,
    );
    lemma_address_number(
        address,
        seq![
            0x23u8, 0x52, 0x9b, 0x46, 0xbb, 0x5f, 0xdb, 0x9f, 0x9d, 0x04,
            0x27, 0xe9, 0xa3, 0x51, 0x15, 0x55, 0x1b, 0x72, 0x58, 0x1b,
        ],
        0x23529b46bb5fdb9f9d0427e9a35115551b72581bint,
    );
    lemma_address_number(
        address,
        seq![
            0x23u8, 0x94, 0x26, 0xc2, 0xfe, 0xda, 0x17, 0xd1, 0x06, 0x35,
            0xb6, 0xe7, 0xd1, 0xcf, 0xca, 0x9a, 0xb3, 0x3a, 0xb2, 0x22,
        ],
        0x239426c2feda17d10635b6e7d1cfca9ab33ab222int,
    );
    lemma_address_number(
        address,
        seq![
            0x26u8, 0xc1, 0x08, 0x7b, 0x6a, 0x65, 0x8c, 0x10, 0x67, 0x68,
            0xee, 0xa1, 0x93, 0x1e, 0x08, 0x3c, 0xe4, 0x69, 0xf2, 0x0c,
        ],
        0x26c1087b6a658c106768eea1931e083ce469f20cint,
    );
    lemma_address_number(
        address,
        seq![
            0x30u8, 0xda, 0xff, 0x27, 0xda, 0x01, 0x2e, 0x11, 0x8c, 0x07,
            0xfa, 0xe5, 0x38, 0x0e, 0xb0, 0x6f, 0x70, 0x7c, 0x5c, 0xe4,
        ],
        0x30daff27da012e118c07fae5380eb06f707c5ce4int,
    );
    lemma_address_number(
        address,
        seq![
            0x34u8, 0x0d, 0x2b, 0xde, 0x5e, 0xb2, 0x8c, 0x1e, 0xed, 0x91,
            0xb2, 0xf7, 0x90, 0x72, 0x3e, 0x3b, 0x16, 0x06, 0x13, 0xb7,
        ],
        0x340d2bde5eb28c1eed91b2f790723e3b160613b7int,
    );
    lemma_address_number(
        address,
        seq![
            0x37u8, 0x77, 0x26, 0x1f, 0xd6, 0xe1, 0xec, 0x07, 0x04, 0x73,
            0x5d, 0x49, 0x13, 0x28, 0x21, 0x5b, 0x9f, 0x58, 0x25, 0xb1,
        ],
        0x3777261fd6e1ec0704735d491328215b9f5825b1int,
    );
    lemma_address_number(
        address,
        seq![
            0x42u8, 0x80, 0xb1, 0x0e, 0x7c, 0xd1, 0x21, 0x71, 0xe9, 0x44,
            0x40, 0x1e, 0x40, 0x18, 0x25, 0x0d, 0x20, 0x52, 0xa0, 0xd6,
        ],
        0x4280b10e7cd12171e944401e4018250d2052a0d6int,
    );
    lemma_address_number(
        address,
        seq![
            0x4au8, 0x55, 0x65, 0xdb, 0x65, 0x15, 0x92, 0x34, 0x18, 0xbb,
            0x9a, 0xb1, 0xa8, 0xad, 0x81, 0x6e, 0x85, 0xc1, 0x2f, 0xf4,
        ],
        0x4a5565db6515923418bb9ab1a8ad816e85c12ff4int,
    );
    lemma_address_number(
        address,
        seq![
            0x4cu8, 0xff, 0x49, 0xd0, 0xa1, 0x9e, 0xd6, 0xff, 0x84, 0x5a,
            0x91, 0x22, 0xfa, 0x91, 0x2a, 0xbc, 0xfb, 0x1f, 0x68, 0xa6,
        ],
        0x4cff49d0a19ed6ff845a9122fa912abcfb1f68a6int,
    );
    lemma_address_number(
        address,
        seq![
            0x4du8, 0x22, 0x44, 0x52, 0x80, 0x1a, 0xce, 0xd8, 0xb2, 0xf0,
            0xae, 0xbe, 0x15, 0x53, 0x79, 0xbb, 0x5d, 0x59, 0x43, 0x81,
        ],
        0x4d224452801aced8b2f0aebe155379bb5d594381int,
    );
    lemma_address_number(
        address,
        seq![
            0x4du8, 0x9f, 0xf5, 0x0e, 0xf4, 0xda, 0x94, 0x73, 0x64, 0xbb,
            0x96, 0x50, 0x89, 0x2b, 0x25, 0x54, 0xe7, 0xbe, 0x5e, 0x2b,
        ],
        0x4d9ff50ef4da947364bb9650892b2554e7be5e2bint,
    );
    lemma_address_number(
        address,
        seq![
            0x5cu8, 0x95, 0x38, 0x08, 0x5f, 0xdf, 0xce, 0x74, 0x70, 0xe6,
            0x6f, 0x7c, 0x3e, 0x1b, 0x1f, 0x0f, 0x01, 0xd9, 0x69, 0xaa,
        ],
        0x5c9538085fdfce7470e66f7c3e1b1f0f01d969aaint,
    );
    lemma_address_number(
        address,
        seq![
            0x5fu8, 0xaa, 0x98, 0x9a, 0xf9, 0x6a, 0xf8, 0x53, 0x84, 0xb8,
            0xa9, 0x38, 0xc2, 0xed, 0xe4, 0xa7, 0x37, 0x8d, 0x98, 0x75,
        ],
        0x5faa989af96af85384b8a938c2ede4a7378d9875int,
    );
    lemma_address_number(
        address,
        seq![
            0x67u8, 0x1e, 0x1c, 0x28, 0x9f, 0x45, 0xcc, 0xaa, 0x82, 0x84,
            0x35, 0x01, 0xc7, 0xbc, 0x84, 0x1b, 0xa2, 0x6b, 0x97, 0xf1,
        ],
        0x671e1c289f45ccaa82843501c7bc841ba26b97f1int,
    );
    lemma_address_number(
        address,
        seq![
            0xf7u8, 0x0d, 0xa9, 0x78, 0x12, 0xcb, 0x96, 0xac, 0xdf, 0x81,
            0x07, 0x12, 0xaa, 0x56, 0x2d, 0xb8, 0xdf, 0xa3, 0xdb, 0xef,
        ],
        0xf70da97812cb96acdf810712aa562db8dfa3dbefint,
    );
}

/// A root covers exactly the accounts with these addresses.
pub proof fn a_root_covers_these_accounts(scope: RootScope, address: Address, included: bool)
    requires
        call_ensures(RootScope::includes, (scope, &address), included),
    ensures
        scope == RootScope::Host ==> (included <==> {
            ||| address@ == seq![
                0x00u8, 0x00, 0x00, 0x62, 0x9f, 0xbc, 0xf2, 0x7a, 0x34, 0x7d,
                0x1a, 0xeb, 0xa6, 0x58, 0x43, 0x52, 0x30, 0xd7, 0x4a, 0x5f,
            ]
            ||| address@ == seq![
                0x03u8, 0x7d, 0xd4, 0x8f, 0xfd, 0x09, 0xfb, 0xdc, 0x1e, 0x38,
                0x5f, 0xef, 0xda, 0x48, 0xc6, 0xe1, 0xef, 0x13, 0x82, 0xaf,
            ]
            ||| address@ == seq![
                0x06u8, 0xa9, 0xab, 0x27, 0xc7, 0xe2, 0x25, 0x5d, 0xf1, 0x81,
                0x5e, 0x6c, 0xc0, 0x16, 0x8d, 0x77, 0x55, 0xfe, 0xb1, 0x9a,
            ]
            ||| address@ == seq![
                0x08u8, 0xe9, 0x6f, 0x30, 0x8e, 0xb0, 0x08, 0xb3, 0xdb, 0x68,
                0x64, 0x0a, 0xba, 0x6b, 0x06, 0x07, 0x86, 0x25, 0xf8, 0xcd,
            ]
            ||| address@ == seq![
                0x0du8, 0x07, 0x07, 0x96, 0x39, 0x52, 0xf2, 0xfb, 0xa5, 0x9d,
                0xd0, 0x6f, 0x2b, 0x42, 0x5a, 0xce, 0x40, 0xb4, 0x92, 0xfe,
            ]
            ||| address@ == seq![
                0x11u8, 0x11, 0x11, 0x12, 0x54, 0x21, 0xca, 0x6d, 0xc4, 0x52,
                0xd2, 0x89, 0x31, 0x42, 0x80, 0xa0, 0xf8, 0x84, 0x2a, 0x65,
            ]
            ||| address@ == seq![
                0x12u8, 0x10, 0x67, 0x58, 0xe0, 0x36, 0x13, 0xe6, 0x6f, 0xa9,
                0x62, 0x09, 0x92, 0x79, 0x40, 0xc8, 0x25, 0xe8, 0x5f, 0xff,
            ]
            ||| address@ == seq![
                0x15u8, 0x16, 0x00, 0x83, 0x76, 0x54, 0x3c, 0x28, 0x36, 0x54,
                0xf6, 0x0b, 0x03, 0xa2, 0x8e, 0x1c, 0x99, 0x30, 0x80, 0x6a,
            ]
            ||| address@ == seq![
                0x16u8, 0xc0, 0x82, 0x9d, 0xd6, 0x01, 0x24, 0xf2, 0xa7, 0xd4,
                0x9a, 0x5e, 0x76, 0x8f, 0x79, 0x78, 0xa5, 0x7c, 0x23, 0x93,
            ]
            ||| address@ == seq![
                0x17u8, 0x28, 0xd7, 0x09, 0x9f, 0x65, 0x35, 0xf5, 0xef, 0xeb,
                0xa7, 0x84, 0xa4, 0xba, 0x54, 0x12, 0x0c, 0xea, 0xda, 0x6b,
            ]
            ||| address@ == seq![
                0x1du8, 0x71, 0xeb, 0x5d, 0x4f, 0x05, 0x88, 0x4a, 0xdd, 0x4d,
                0x8e, 0x8a, 0x4d, 0x31, 0xee, 0xf3, 0xa4, 0x26, 0x3c, 0x47,
            ]
            ||| address@ == seq![
                0x23u8, 0x52, 0x9b, 0x46, 0xbb, 0x5f, 0xdb, 0x9f, 0x9d, 0x04,
                0x27, 0xe9, 0xa3, 0x51, 0x15, 0x55, 0x1b, 0x72, 0x58, 0x1b,
            ]
            ||| address@ == seq![
                0x23u8, 0x94, 0x26, 0xc2, 0xfe, 0xda, 0x17, 0xd1, 0x06, 0x35,
                0xb6, 0xe7, 0xd1, 0xcf, 0xca, 0x9a, 0xb3, 0x3a, 0xb2, 0x22,
            ]
            ||| address@ == seq![
                0x26u8, 0xc1, 0x08, 0x7b, 0x6a, 0x65, 0x8c, 0x10, 0x67, 0x68,
                0xee, 0xa1, 0x93, 0x1e, 0x08, 0x3c, 0xe4, 0x69, 0xf2, 0x0c,
            ]
            ||| address@ == seq![
                0x30u8, 0xda, 0xff, 0x27, 0xda, 0x01, 0x2e, 0x11, 0x8c, 0x07,
                0xfa, 0xe5, 0x38, 0x0e, 0xb0, 0x6f, 0x70, 0x7c, 0x5c, 0xe4,
            ]
            ||| address@ == seq![
                0x34u8, 0x0d, 0x2b, 0xde, 0x5e, 0xb2, 0x8c, 0x1e, 0xed, 0x91,
                0xb2, 0xf7, 0x90, 0x72, 0x3e, 0x3b, 0x16, 0x06, 0x13, 0xb7,
            ]
            ||| address@ == seq![
                0x37u8, 0x77, 0x26, 0x1f, 0xd6, 0xe1, 0xec, 0x07, 0x04, 0x73,
                0x5d, 0x49, 0x13, 0x28, 0x21, 0x5b, 0x9f, 0x58, 0x25, 0xb1,
            ]
            ||| address@ == seq![
                0x42u8, 0x80, 0xb1, 0x0e, 0x7c, 0xd1, 0x21, 0x71, 0xe9, 0x44,
                0x40, 0x1e, 0x40, 0x18, 0x25, 0x0d, 0x20, 0x52, 0xa0, 0xd6,
            ]
            ||| address@ == seq![
                0x4au8, 0x55, 0x65, 0xdb, 0x65, 0x15, 0x92, 0x34, 0x18, 0xbb,
                0x9a, 0xb1, 0xa8, 0xad, 0x81, 0x6e, 0x85, 0xc1, 0x2f, 0xf4,
            ]
            ||| address@ == seq![
                0x4cu8, 0xff, 0x49, 0xd0, 0xa1, 0x9e, 0xd6, 0xff, 0x84, 0x5a,
                0x91, 0x22, 0xfa, 0x91, 0x2a, 0xbc, 0xfb, 0x1f, 0x68, 0xa6,
            ]
            ||| address@ == seq![
                0x4du8, 0x22, 0x44, 0x52, 0x80, 0x1a, 0xce, 0xd8, 0xb2, 0xf0,
                0xae, 0xbe, 0x15, 0x53, 0x79, 0xbb, 0x5d, 0x59, 0x43, 0x81,
            ]
            ||| address@ == seq![
                0x4du8, 0x9f, 0xf5, 0x0e, 0xf4, 0xda, 0x94, 0x73, 0x64, 0xbb,
                0x96, 0x50, 0x89, 0x2b, 0x25, 0x54, 0xe7, 0xbe, 0x5e, 0x2b,
            ]
            ||| address@ == seq![
                0x5cu8, 0x95, 0x38, 0x08, 0x5f, 0xdf, 0xce, 0x74, 0x70, 0xe6,
                0x6f, 0x7c, 0x3e, 0x1b, 0x1f, 0x0f, 0x01, 0xd9, 0x69, 0xaa,
            ]
            ||| address@ == seq![
                0x5fu8, 0xaa, 0x98, 0x9a, 0xf9, 0x6a, 0xf8, 0x53, 0x84, 0xb8,
                0xa9, 0x38, 0xc2, 0xed, 0xe4, 0xa7, 0x37, 0x8d, 0x98, 0x75,
            ]
            ||| address@ == seq![
                0x67u8, 0x1e, 0x1c, 0x28, 0x9f, 0x45, 0xcc, 0xaa, 0x82, 0x84,
                0x35, 0x01, 0xc7, 0xbc, 0x84, 0x1b, 0xa2, 0x6b, 0x97, 0xf1,
            ]
        }),
        scope == RootScope::Replay ==> (included <==> {
            ||| address@ == seq![
                0x00u8, 0x00, 0x00, 0x62, 0x9f, 0xbc, 0xf2, 0x7a, 0x34, 0x7d,
                0x1a, 0xeb, 0xa6, 0x58, 0x43, 0x52, 0x30, 0xd7, 0x4a, 0x5f,
            ]
            ||| address@ == seq![
                0x03u8, 0x7d, 0xd4, 0x8f, 0xfd, 0x09, 0xfb, 0xdc, 0x1e, 0x38,
                0x5f, 0xef, 0xda, 0x48, 0xc6, 0xe1, 0xef, 0x13, 0x82, 0xaf,
            ]
            ||| address@ == seq![
                0x30u8, 0xda, 0xff, 0x27, 0xda, 0x01, 0x2e, 0x11, 0x8c, 0x07,
                0xfa, 0xe5, 0x38, 0x0e, 0xb0, 0x6f, 0x70, 0x7c, 0x5c, 0xe4,
            ]
            ||| address@ == seq![
                0x37u8, 0x77, 0x26, 0x1f, 0xd6, 0xe1, 0xec, 0x07, 0x04, 0x73,
                0x5d, 0x49, 0x13, 0x28, 0x21, 0x5b, 0x9f, 0x58, 0x25, 0xb1,
            ]
            ||| address@ == seq![
                0x67u8, 0x1e, 0x1c, 0x28, 0x9f, 0x45, 0xcc, 0xaa, 0x82, 0x84,
                0x35, 0x01, 0xc7, 0xbc, 0x84, 0x1b, 0xa2, 0x6b, 0x97, 0xf1,
            ]
            ||| address@ == seq![
                0xf7u8, 0x0d, 0xa9, 0x78, 0x12, 0xcb, 0x96, 0xac, 0xdf, 0x81,
                0x07, 0x12, 0xaa, 0x56, 0x2d, 0xb8, 0xdf, 0xa3, 0xdb, 0xef,
            ]
        }),
{
    lemma_covers(scope, address@);
}

/// What is kept of a filtered list stands in the order of the list.
proof fn lemma_filter_keeps_order(
    accounts: Seq<BundleAccount>,
    keep: spec_fn(BundleAccount) -> bool,
    i: int,
    j: int,
) -> (places: (int, int))
    requires
        0 <= i < j < accounts.filter(keep).len(),
    ensures
        0 <= places.0 < places.1 < accounts.len(),
        accounts[places.0] == accounts.filter(keep)[i],
        accounts[places.1] == accounts.filter(keep)[j],
    decreases accounts.len(),
{
    reveal(Seq::filter);
    let rest = accounts.drop_last();
    let kept = rest.filter(keep);
    if j < kept.len() {
        let places = lemma_filter_keeps_order(rest, keep, i, j);
        assert(rest[places.0] == accounts[places.0]);
        assert(rest[places.1] == accounts[places.1]);
        places
    } else {
        assert(kept[i] == accounts.filter(keep)[i]);
        rest.lemma_filter_contains_rev(keep, kept[i]);
        let p = choose|p: int| 0 <= p < rest.len() && rest[p] == kept[i];
        assert(rest[p] == accounts[p]);
        (p, accounts.len() - 1)
    }
}

/// An account stays exactly if it was there and its address is covered.
pub proof fn retaining_keeps_the_covered_accounts(
    bundle: &mut BundleState,
    scope: RootScope,
    account: BundleAccount,
    included: bool,
)
    requires
        call_ensures(BundleState::retain, (bundle, scope), ()),
        call_ensures(RootScope::includes, (scope, &account.address), included),
    ensures
        final(bundle).accounts@.contains(account) <==> old(bundle).accounts@.contains(account)
            && included,
{
    let keep = |account: BundleAccount| scope.covers(account.address@);
    let (all, kept) = (bundle.accounts@, final(bundle).accounts@);
    assert(kept == all.filter(keep));
    if kept.contains(account) {
        all.lemma_filter_contains_rev(keep, account);
        let k = choose|k: int| 0 <= k < kept.len() && kept[k] == account;
        all.lemma_filter_pred(keep, k);
    }
    if all.contains(account) && included {
        let i = choose|i: int| 0 <= i < all.len() && all[i] == account;
        all.lemma_filter_contains(keep, i);
    }
}

/// What stays stands in the order in which it was: of two that stay, the first was before the
/// second. Their places come of the proof.
pub proof fn retaining_keeps_the_order(
    bundle: &mut BundleState,
    scope: RootScope,
    i: int,
    j: int,
) -> (places: (int, int))
    requires
        call_ensures(BundleState::retain, (bundle, scope), ()),
        0 <= i < j < final(bundle).accounts@.len(),
    ensures
        0 <= places.0 < places.1 < old(bundle).accounts@.len(),
        old(bundle).accounts@[places.0] == final(bundle).accounts@[i],
        old(bundle).accounts@[places.1] == final(bundle).accounts@[j],
{
    let keep = |account: BundleAccount| scope.covers(account.address@);
    lemma_filter_keeps_order(bundle.accounts@, keep, i, j)
}

/// The place of the copy of a covered account.
pub proof fn lemma_copy_of(
    all: Seq<BundleAccount>,
    scope: RootScope,
    copies: Seq<BundleAccount>,
    i: int,
) -> (k: int)
    requires
        account_views(copies) == account_views(covered_accounts(all, scope)),
        0 <= i < all.len(),
        scope.covers(all[i].address@),
    ensures
        0 <= k < copies.len(),
        copies[k].address@ == all[i].address@,
        copies[k].info == all[i].info,
        copies[k].storage@ == all[i].storage@,
        copies[k].destroyed == all[i].destroyed,
{
    let keep = |account: BundleAccount| scope.covers(account.address@);
    let listed = all.filter(keep);
    let (seen, views) = (account_views(copies), account_views(listed));
    assert(copies.len() == seen.len() && listed.len() == views.len());
    all.lemma_filter_contains(keep, i);
    let k = choose|k: int| 0 <= k < listed.len() && listed[k] == all[i];
    assert(seen[k] == views[k]);
    assert(copies[k]@ == listed[k]@);
    k
}

/// The place of the account that a copy was made of.
pub proof fn lemma_source_of(
    all: Seq<BundleAccount>,
    scope: RootScope,
    copies: Seq<BundleAccount>,
    k: int,
) -> (i: int)
    requires
        account_views(copies) == account_views(covered_accounts(all, scope)),
        0 <= k < copies.len(),
    ensures
        0 <= i < all.len(),
        scope.covers(all[i].address@),
        copies[k].address@ == all[i].address@,
        copies[k].info == all[i].info,
        copies[k].storage@ == all[i].storage@,
        copies[k].destroyed == all[i].destroyed,
{
    let keep = |account: BundleAccount| scope.covers(account.address@);
    let listed = all.filter(keep);
    let (seen, views) = (account_views(copies), account_views(listed));
    assert(copies.len() == seen.len() && listed.len() == views.len());
    assert(seen[k] == views[k]);
    assert(copies[k]@ == listed[k]@);
    all.lemma_filter_pred(keep, k);
    all.lemma_filter_contains_rev(keep, listed[k]);
    choose|i: int| 0 <= i < all.len() && all[i] == listed[k]
}

/// Every covered account is copied whole. The place of the copy comes of the proof.
pub proof fn a_covered_account_is_copied_whole(
    bundle: BundleState,
    scope: RootScope,
    kept: BundleState,
    i: int,
) -> (k: int)
    requires
        call_ensures(BundleState::covered, (&bundle, scope), kept),
        0 <= i < bundle.accounts@.len(),
        call_ensures(RootScope::includes, (scope, &bundle.accounts@[i].address), true),
    ensures
        0 <= k < kept.accounts@.len(),
        kept.accounts@[k].address@ == bundle.accounts@[i].address@,
        kept.accounts@[k].info == bundle.accounts@[i].info,
        kept.accounts@[k].storage@ == bundle.accounts@[i].storage@,
        kept.accounts@[k].destroyed == bundle.accounts@[i].destroyed,
{
    lemma_copy_of(bundle.accounts@, scope, kept.accounts@, i)
}

/// What is copied is a covered account, whole. Its place comes of the proof.
pub proof fn only_covered_accounts_are_copied(
    bundle: BundleState,
    scope: RootScope,
    kept: BundleState,
    k: int,
    included: bool,
) -> (i: int)
    requires
        call_ensures(BundleState::covered, (&bundle, scope), kept),
        0 <= k < kept.accounts@.len(),
        call_ensures(RootScope::includes, (scope, &kept.accounts@[k].address), included),
    ensures
        included,
        0 <= i < bundle.accounts@.len(),
        kept.accounts@[k].address@ == bundle.accounts@[i].address@,
        kept.accounts@[k].info == bundle.accounts@[i].info,
        kept.accounts@[k].storage@ == bundle.accounts@[i].storage@,
        kept.accounts@[k].destroyed == bundle.accounts@[i].destroyed,
{
    lemma_source_of(bundle.accounts@, scope, kept.accounts@, k)
}

/// Copies stand in the order of the accounts: of two copies, the first is of an account before that
/// of the second. Their places come of the proof.
pub proof fn copies_stand_in_order(
    bundle: BundleState,
    scope: RootScope,
    kept: BundleState,
    i: int,
    j: int,
) -> (places: (int, int))
    requires
        call_ensures(BundleState::covered, (&bundle, scope), kept),
        0 <= i < j < kept.accounts@.len(),
    ensures
        0 <= places.0 < places.1 < bundle.accounts@.len(),
        bundle.accounts@[places.0].address@ == kept.accounts@[i].address@,
        bundle.accounts@[places.1].address@ == kept.accounts@[j].address@,
{
    let keep = |account: BundleAccount| scope.covers(account.address@);
    let listed = bundle.accounts@.filter(keep);
    let (seen, views) = (account_views(kept.accounts@), account_views(listed));
    assert(kept.accounts@.len() == seen.len() && listed.len() == views.len());
    assert(seen[i] == views[i] && seen[j] == views[j]);
    assert(kept.accounts@[i]@ == listed[i]@ && kept.accounts@[j]@ == listed[j]@);
    lemma_filter_keeps_order(bundle.accounts@, keep, i, j)
}

/// The overridden account by its number and by its bytes.
pub proof fn lemma_overridden(address: Seq<u8>)
    requires
        address.len() == 20,
    ensures
        be_value(address) == override_account() <==> is_overridden_account(address),
{
    lemma_address_number(
        address,
        seq![
            0x00u8, 0x00, 0x00, 0x62, 0x9f, 0xbc, 0xf2, 0x7a, 0x34, 0x7d,
            0x1a, 0xeb, 0xa6, 0x58, 0x43, 0x52, 0x30, 0xd7, 0x4a, 0x5f,
        ],
        0x000000629fbcf27a347d1aeba658435230d74a5fint,
    );
}

/// The override sets one balance, that of the one account, and leaves every account, slot and value
/// besides as it is.
pub proof fn the_override_sets_one_balance(bundle: &mut BundleState, i: int)
    requires
        call_ensures(BundleState::override_replay_balance, (bundle,), ()),
        0 <= i < old(bundle).accounts@.len(),
    ensures
        final(bundle).accounts@.len() == old(bundle).accounts@.len(),
        final(bundle).accounts@[i].address == old(bundle).accounts@[i].address,
        final(bundle).accounts@[i].storage@ == old(bundle).accounts@[i].storage@,
        final(bundle).accounts@[i].destroyed == old(bundle).accounts@[i].destroyed,
        final(bundle).accounts@[i].info is Some <==> old(bundle).accounts@[i].info is Some,
        old(bundle).accounts@[i].info is Some ==> {
            let before = old(bundle).accounts@[i].info->0;
            let after = final(bundle).accounts@[i].info->0;
            &&& after.nonce == before.nonce
            &&& after.code_hash == before.code_hash
            &&& old(bundle).accounts@[i].address@ == seq![
                    0x00u8, 0x00, 0x00, 0x62, 0x9f, 0xbc, 0xf2, 0x7a, 0x34, 0x7d,
                    0x1a, 0xeb, 0xa6, 0x58, 0x43, 0x52, 0x30, 0xd7, 0x4a, 0x5f,
                ] ==> after.balance.value()
                == 63298440508785708615
            &&& old(bundle).accounts@[i].address@ != seq![
                    0x00u8, 0x00, 0x00, 0x62, 0x9f, 0xbc, 0xf2, 0x7a, 0x34, 0x7d,
                    0x1a, 0xeb, 0xa6, 0x58, 0x43, 0x52, 0x30, 0xd7, 0x4a, 0x5f,
                ] ==> after.balance == before.balance
        },
{
    lemma_overridden(bundle.accounts@[i].address@);
    let after = final(bundle).accounts[i];
}

/// The account whose balance is set is there exactly if one account has its address and exists.
pub proof fn the_override_target_is_found(bundle: BundleState, found: bool)
    requires
        call_ensures(BundleState::has_replay_target, (&bundle,), found),
    ensures
        found <==> exists|i: int|
            #![trigger bundle.accounts@[i]]
            0 <= i < bundle.accounts@.len() && bundle.accounts@[i].address@ == seq![
                    0x00u8, 0x00, 0x00, 0x62, 0x9f, 0xbc, 0xf2, 0x7a, 0x34, 0x7d,
                    0x1a, 0xeb, 0xa6, 0x58, 0x43, 0x52, 0x30, 0xd7, 0x4a, 0x5f,
                ]
                && bundle.accounts@[i].info is Some,
{
    if found {
        let i = choose|i: int| bundle.is_override_target(i);
        lemma_overridden(bundle.accounts@[i].address@);
    }
    if exists|i: int|
        #![trigger bundle.accounts@[i]]
        0 <= i < bundle.accounts@.len() && is_overridden_account(bundle.accounts@[i].address@)
            && bundle.accounts@[i].info is Some {
        let i = choose|i: int|
            #![trigger bundle.accounts@[i]]
            0 <= i < bundle.accounts@.len() && is_overridden_account(bundle.accounts@[i].address@)
                && bundle.accounts@[i].info is Some;
        lemma_overridden(bundle.accounts@[i].address@);
        assert(bundle.is_override_target(i));
    }
}

/// Each slot that the account lists is among its modified keys. The place of its key comes of the
/// proof.
pub proof fn a_written_slot_is_a_modified_key(
    bundle: BundleState,
    address: Address,
    keys: Vec<B256>,
    i: int,
    n: int,
) -> (k: int)
    requires
        bundle.wf(),
        call_ensures(BundleState::modified_keys, (&bundle, &address), keys),
        0 <= i < bundle.accounts@.len(),
        bundle.accounts@[i].address@ == address@,
        0 <= n < bundle.accounts@[i].storage@.len(),
    ensures
        0 <= k < keys@.len(),
        be_value(keys@[k]@) == bundle.accounts@[i].storage@[n].slot.value(),
{
    lemma_account_of(bundle, address@, i);
    let account = bundle.accounts@[i];
    let slots = written_slots(account.storage@);
    let v = account.storage@[n].slot.value();
    assert(slots[n].value() == v);
    assert(slot_set(slots).contains(v));
    assert(key_set(keys@).contains(v));
    choose|k: int| 0 <= k < keys@.len() && be_value(#[trigger] keys@[k]@) == v
}

/// Each modified key is that of a slot that the account with this address lists, and they ascend.
/// The places of the account and of the slot come of the proof.
pub proof fn a_modified_key_is_a_written_slot(
    bundle: BundleState,
    address: Address,
    keys: Vec<B256>,
    k: int,
) -> (places: (int, int))
    requires
        bundle.wf(),
        call_ensures(BundleState::modified_keys, (&bundle, &address), keys),
        0 <= k < keys@.len(),
    ensures
        0 <= places.0 < bundle.accounts@.len(),
        bundle.accounts@[places.0].address@ == address@,
        0 <= places.1 < bundle.accounts@[places.0].storage@.len(),
        be_value(keys@[k]@) == bundle.accounts@[places.0].storage@[places.1].slot.value(),
        forall|m: int|
            #![trigger keys@[m]]
            k < m < keys@.len() ==> be_value(keys@[k]@) < be_value(keys@[m]@),
{
    let v = be_value(keys@[k]@);
    assert(key_set(keys@).contains(v));
    assert(bundle.has(address@));
    let i = choose|i: int| bundle.is_at(address@, i);
    let account = bundle.accounts@[i];
    let slots = written_slots(account.storage@);
    assert(slot_set(slots).contains(v));
    let n = choose|n: int| 0 <= n < slots.len() && (#[trigger] slots[n]).value() == v;
    assert(account.storage@[n].slot.value() == v);
    (i, n)
}

/// The slots of the account with an address.
pub proof fn lemma_account_of(bundle: BundleState, address: Seq<u8>, i: int)
    requires
        bundle.wf(),
        0 <= i < bundle.accounts@.len(),
        bundle.accounts@[i].address@ == address,
    ensures
        bundle.modified_slots(address) == slot_set(written_slots(bundle.accounts@[i].storage@)),
{
    assert(bundle.is_at(address, i));
    let c = choose|c: int| bundle.is_at(address, c);
    if c < i {
        assert(bundle.accounts[c].address@ != bundle.accounts[i].address@);
    } else if i < c {
        assert(bundle.accounts[i].address@ != bundle.accounts[c].address@);
    }
}

} // verus!
