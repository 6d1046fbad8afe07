use ed25519_errors::errors::{DecodingError, InternalError};
use std::collections::hash_map::DefaultHasher;
use std::hash::{Hash, Hasher};

fn hash_of<T: Hash>(value: &T) -> u64 {
    let mut hasher = DefaultHasher::new();
    value.hash(&mut hasher);
    hasher.finish()
}

#[test]
fn point_decompression_message() {
    let e = DecodingError::new(InternalError::PointDecompressionError);
    assert_eq!(
        e.message(),
        "Cannot decompress extended twisted edwards point"
    );
}

#[test]
fn scalar_format_message() {
    let e = DecodingError::new(InternalError::ScalarFormatError);
    assert_eq!(e.message(), "Cannot use scalar with high-bit set");
}

#[test]
fn bytes_length_message_public_key() {
    let e = DecodingError::new(InternalError::BytesLengthError {
        name: "PublicKey",
        length: 32,
    });
    assert_eq!(e.message(), "PublicKey must be 32 bytes in length");
}

#[test]
fn signature_scenario() {
    let kind = InternalError::BytesLengthError {
        name: "Signature",
        length: 64,
    };
    let wrapped = DecodingError::new(kind);
    assert_eq!(wrapped.message(), "Signature must be 64 bytes in length");
    let cause = wrapped.cause().expect("a decoding error always has a cause");
    assert_eq!(cause.message(), "Signature must be 64 bytes in length");
}

#[test]
fn wrapper_message_matches_kind() {
    let kinds = [
        InternalError::PointDecompressionError,
        InternalError::ScalarFormatError,
        InternalError::BytesLengthError {
            name: "SecretKey",
            length: 32,
        },
    ];
    for kind in kinds {
        let wrapped = DecodingError::new(kind);
        assert_eq!(wrapped.message(), kind.message());
    }
}

#[test]
fn cause_message_matches_error() {
    let kinds = [
        InternalError::PointDecompressionError,
        InternalError::ScalarFormatError,
        InternalError::BytesLengthError {
            name: "Keypair",
            length: 64,
        },
    ];
    for kind in kinds {
        let wrapped = DecodingError::new(kind);
        let cause = wrapped.cause().expect("a decoding error always has a cause");
        assert_eq!(cause.message(), wrapped.message());
    }
}

#[test]
fn bytes_length_message_edge_lengths() {
    let zero = DecodingError::new(InternalError::BytesLengthError {
        name: "ExpandedSecretKey",
        length: 0,
    });
    assert_eq!(zero.message(), "ExpandedSecretKey must be 0 bytes in length");

    let ten = DecodingError::new(InternalError::BytesLengthError {
        name: "PublicKey",
        length: 10,
    });
    assert_eq!(ten.message(), "PublicKey must be 10 bytes in length");

    let round = DecodingError::new(InternalError::BytesLengthError {
        name: "PublicKey",
        length: 100,
    });
    assert_eq!(round.message(), "PublicKey must be 100 bytes in length");

    let largest = DecodingError::new(InternalError::BytesLengthError {
        name: "PublicKey",
        length: usize::MAX,
    });
    assert_eq!(
        largest.message(),
        format!("PublicKey must be {} bytes in length", usize::MAX)
    );
}

#[test]
fn equal_kinds_give_equal_errors_and_hashes() {
    let a = DecodingError::new(InternalError::BytesLengthError {
        name: "PublicKey",
        length: 32,
    });
    let b = DecodingError::new(InternalError::BytesLengthError {
        name: "PublicKey",
        length: 32,
    });
    assert_eq!(a, b);
    assert_eq!(hash_of(&a), hash_of(&b));

    let c = DecodingError::new(InternalError::ScalarFormatError);
    let d = DecodingError::new(InternalError::ScalarFormatError);
    assert_eq!(c, d);
    assert_eq!(hash_of(&c), hash_of(&d));

    let e = DecodingError::new(InternalError::PointDecompressionError);
    let f = DecodingError::new(InternalError::PointDecompressionError);
    assert_eq!(e, f);
    assert_eq!(hash_of(&e), hash_of(&f));
}

#[test]
fn differing_errors_are_unequal() {
    let point = DecodingError::new(InternalError::PointDecompressionError);
    let scalar = DecodingError::new(InternalError::ScalarFormatError);
    let length = DecodingError::new(InternalError::BytesLengthError {
        name: "PublicKey",
        length: 32,
    });
    assert_ne!(point, scalar);
    assert_ne!(point, length);
    assert_ne!(scalar, length);

    let other_name = DecodingError::new(InternalError::BytesLengthError {
        name: "SecretKey",
        length: 32,
    });
    assert_ne!(length, other_name);

    let other_length = DecodingError::new(InternalError::BytesLengthError {
        name: "PublicKey",
        length: 64,
    });
    assert_ne!(length, other_length);
}

#[test]
fn copies_stay_equal() {
    let original = DecodingError::new(InternalError::BytesLengthError {
        name: "Signature",
        length: 64,
    });
    let cloned = original.clone();
    let copied = original;
    assert_eq!(cloned, original);
    assert_eq!(copied, original);
    assert_eq!(cloned.message(), original.message());
}
