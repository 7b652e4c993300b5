use regpoll::catalog::{word_count, EncodingKind};
use regpoll::codec::{decode, encode};

#[test]
fn word_counts_per_kind() {
    assert_eq!(word_count(EncodingKind::Scalar), 1);
    assert_eq!(word_count(EncodingKind::Wide32), 2);
    assert_eq!(word_count(EncodingKind::SignedFlagged), 2);
}

#[test]
fn scalar_decode_is_unsigned() {
    assert_eq!(decode(EncodingKind::Scalar, &vec![0]), 0);
    assert_eq!(decode(EncodingKind::Scalar, &vec![1]), 1);
    assert_eq!(decode(EncodingKind::Scalar, &vec![0xFFFF]), 65535);
}

#[test]
fn scalar_round_trip() {
    for v in [0i32, 1, 12000, 15000, 65535] {
        assert_eq!(decode(EncodingKind::Scalar, &encode(EncodingKind::Scalar, v)), v);
    }
}

#[test]
fn wide32_boundaries() {
    assert_eq!(encode(EncodingKind::Wide32, 0), vec![0, 0]);
    assert_eq!(encode(EncodingKind::Wide32, 0x0001_0002), vec![0x0001, 0x0002]);
    assert_eq!(decode(EncodingKind::Wide32, &vec![0, 0]), 0);
    assert_eq!(decode(EncodingKind::Wide32, &vec![0x0001, 0x0002]), 0x0001_0002);
}

#[test]
fn wide32_round_trip() {
    for v in [0i32, 1, 0x0001_0002, 1_000_000, -1, -1_000_000, i32::MAX, i32::MIN] {
        assert_eq!(decode(EncodingKind::Wide32, &encode(EncodingKind::Wide32, v)), v);
    }
}

#[test]
fn signed_flagged_boundaries() {
    assert_eq!(encode(EncodingKind::SignedFlagged, -1), vec![1, 0xFFFF]);
    assert_eq!(decode(EncodingKind::SignedFlagged, &vec![1, 0xFFFF]), -1);
    assert_eq!(encode(EncodingKind::SignedFlagged, 0), vec![0, 0]);
    assert_eq!(decode(EncodingKind::SignedFlagged, &vec![0, 0]), 0);
    assert_eq!(encode(EncodingKind::SignedFlagged, -65535), vec![1, 1]);
    assert_eq!(decode(EncodingKind::SignedFlagged, &vec![1, 1]), -65535);
}

#[test]
fn signed_flagged_round_trip() {
    for v in [-65535i32, -15000, -1, 0, 1, 15000, 65535] {
        assert_eq!(
            decode(EncodingKind::SignedFlagged, &encode(EncodingKind::SignedFlagged, v)),
            v
        );
    }
}

#[test]
fn short_read_decodes_missing_words_as_zero() {
    // A Wide32 response missing its low word: the high word stands alone.
    assert_eq!(decode(EncodingKind::Wide32, &vec![0x0001]), 0x0001_0000);
    // Fully empty responses decode as zero under every kind.
    assert_eq!(decode(EncodingKind::Scalar, &vec![]), 0);
    assert_eq!(decode(EncodingKind::Wide32, &vec![]), 0);
    assert_eq!(decode(EncodingKind::SignedFlagged, &vec![]), 0);
    // A SignedFlagged response missing its magnitude word.
    assert_eq!(decode(EncodingKind::SignedFlagged, &vec![1]), -65536);
}
