use witnet_wire::chain::DigitalSignature;
use witnet_wire::chain::LeadershipProof;
use witnet_wire::chain::RADType;
use witnet_wire::chain::Secp256k1Signature;
use witnet_wire::proto::pb_round_trip;
use witnet_wire::proto::ConversionError;
use witnet_wire::proto::ProtobufConvert;
use witnet_wire::types::Address;
use witnet_wire::types::IpAddress;
use witnet_wire::wire;

fn sample_signature() -> DigitalSignature {
    DigitalSignature::Secp256k1(Secp256k1Signature {
        r: [1; 32],
        s: [2; 32],
        v: 27,
    })
}

#[test]
fn address_ipv4_encodes_to_six_bytes() {
    let address = Address {
        ip: IpAddress::Ipv4 { ip: 3232235777 },
        port: 8000,
    };
    let pb = address.to_pb();
    assert_eq!(pb.address, vec![0xC0, 0xA8, 0x01, 0x01, 0x1F, 0x40]);

    let back = Address::from_pb(pb).unwrap();
    assert_eq!(back, address);
}

#[test]
fn address_ipv6_encodes_to_eighteen_bytes() {
    let address = Address {
        ip: IpAddress::Ipv6 {
            ip0: 0x2001_0DB8,
            ip1: 0x0000_0000,
            ip2: 0x0000_8A2E,
            ip3: 0x0370_7334,
        },
        port: 443,
    };
    let pb = address.to_pb();
    assert_eq!(pb.address.len(), 18);
    assert_eq!(pb.address[0], 0x20);
    assert_eq!(pb.address[16], 0x01);
    assert_eq!(pb.address[17], 0xBB);

    let back = Address::from_pb(pb).unwrap();
    assert_eq!(back, address);
}

#[test]
fn address_of_seven_bytes_is_rejected() {
    let pb = wire::Address {
        address: vec![0; 7],
    };
    assert_eq!(Address::from_pb(pb), Err(ConversionError::InvalidLength));
}

#[test]
fn signature_wire_layout_is_32_plus_33_bytes() {
    let sig = sample_signature();
    let pb = sig.to_pb();
    let w = pb.kind.clone().unwrap();
    assert_eq!(w.r, vec![1; 32]);
    assert_eq!(w.s.len(), 33);
    assert_eq!(&w.s[..32], &[2; 32][..]);
    assert_eq!(w.s[32], 27);

    let back = DigitalSignature::from_pb(pb).unwrap();
    assert_eq!(back, sig);
}

#[test]
fn signature_with_wrong_lengths_is_rejected() {
    let pb = wire::SignatureWire {
        kind: Some(wire::Secp256k1Signature {
            r: vec![1; 31],
            s: vec![2; 33],
        }),
    };
    assert_eq!(
        DigitalSignature::from_pb(pb),
        Err(ConversionError::InvalidLength)
    );

    let pb = wire::SignatureWire {
        kind: Some(wire::Secp256k1Signature {
            r: vec![1; 32],
            s: vec![2; 32],
        }),
    };
    assert_eq!(
        DigitalSignature::from_pb(pb),
        Err(ConversionError::InvalidLength)
    );
}

#[test]
fn signature_without_scheme_tag_is_rejected() {
    let pb = wire::SignatureWire { kind: None };
    assert_eq!(
        DigitalSignature::from_pb(pb),
        Err(ConversionError::UnknownVariant)
    );
}

#[test]
fn leadership_proof_round_trips_signed_and_unsigned() {
    let unsigned = LeadershipProof {
        block_sig: None,
        influence: 7,
    };
    let back = LeadershipProof::from_pb(unsigned.to_pb()).unwrap();
    assert_eq!(back, unsigned);

    let signed = LeadershipProof {
        block_sig: Some(sample_signature()),
        influence: u64::MAX,
    };
    let pb = signed.to_pb();
    assert_eq!(pb.influence, u64::MAX);
    let back = LeadershipProof::from_pb(pb).unwrap();
    assert_eq!(back, signed);
}

#[test]
fn leadership_proof_propagates_signature_error() {
    let pb = wire::LeadershipProof {
        block_sig: Some(wire::SignatureWire { kind: None }),
        influence: 1,
    };
    assert_eq!(
        LeadershipProof::from_pb(pb),
        Err(ConversionError::UnknownVariant)
    );
}

#[test]
fn rad_type_round_trips() {
    let pb = RADType::HttpGet.to_pb();
    assert_eq!(pb, wire::RadType::HttpGet);
    assert_eq!(RADType::from_pb(pb).unwrap(), RADType::HttpGet);
}

#[test]
fn array20_length_is_enforced() {
    let x: [u8; 20] = [9; 20];
    let pb = x.to_pb();
    assert_eq!(pb, vec![9; 20]);
    assert_eq!(<[u8; 20]>::from_pb(pb).unwrap(), x);

    assert_eq!(
        <[u8; 20]>::from_pb(vec![9; 19]),
        Err(ConversionError::InvalidLength)
    );
    assert_eq!(
        <[u8; 20]>::from_pb(vec![9; 21]),
        Err(ConversionError::InvalidLength)
    );
}

#[test]
fn array32_length_is_enforced() {
    let x: [u8; 32] = [3; 32];
    let pb = x.to_pb();
    assert_eq!(pb, vec![3; 32]);
    assert_eq!(<[u8; 32]>::from_pb(pb).unwrap(), x);

    assert_eq!(
        <[u8; 32]>::from_pb(vec![3; 31]),
        Err(ConversionError::InvalidLength)
    );
}

#[test]
fn narrow_integers_are_range_checked() {
    // u16: wire form is u32, checked against the maximum.
    assert_eq!(12345u16.to_pb(), 12345u32);
    assert_eq!(u16::from_pb(65535u32).unwrap(), 65535u16);
    assert_eq!(
        u16::from_pb(65536u32),
        Err(ConversionError::IntegerOutOfRange)
    );

    // i8: wire form is i32.
    assert_eq!((-5i8).to_pb(), -5i32);
    assert_eq!(i8::from_pb(127i32).unwrap(), 127i8);
    assert_eq!(
        i8::from_pb(128i32),
        Err(ConversionError::IntegerOutOfRange)
    );

    // A wide value below the minimum still decodes, by truncation: only
    // the maximum is range-checked.
    assert_eq!(i8::from_pb(-200i32).unwrap(), 56i8);

    // i16: wire form is i32.
    assert_eq!((-300i16).to_pb(), -300i32);
    assert_eq!(i16::from_pb(-300i32).unwrap(), -300i16);
    assert_eq!(
        i16::from_pb(32768i32),
        Err(ConversionError::IntegerOutOfRange)
    );
}

#[test]
fn scalars_and_strings_convert_identity_wise() {
    assert_eq!(true.to_pb(), true);
    assert_eq!(bool::from_pb(false).unwrap(), false);
    assert_eq!(7u32.to_pb(), 7u32);
    assert_eq!(u64::from_pb(u64::MAX).unwrap(), u64::MAX);
    assert_eq!((-7i32).to_pb(), -7i32);
    assert_eq!(i64::from_pb(-9i64).unwrap(), -9i64);

    let s = String::from("user agent");
    assert_eq!(s.to_pb(), s);
    assert_eq!(String::from_pb(s.clone()).unwrap(), s);

    let bytes: Vec<u8> = vec![0, 1, 2, 255];
    assert_eq!(bytes.to_pb(), bytes);
    assert_eq!(Vec::<u8>::from_pb(bytes.clone()).unwrap(), bytes);
}

#[test]
fn sequences_convert_element_wise_in_order() {
    let addresses = vec![
        Address {
            ip: IpAddress::Ipv4 { ip: 1 },
            port: 1,
        },
        Address {
            ip: IpAddress::Ipv4 { ip: 2 },
            port: 2,
        },
    ];
    let pb = addresses.to_pb();
    assert_eq!(pb.len(), 2);
    assert_eq!(pb[0].address, vec![0, 0, 0, 1, 0, 1]);
    assert_eq!(pb[1].address, vec![0, 0, 0, 2, 0, 2]);

    let back = Vec::<Address>::from_pb(pb).unwrap();
    assert_eq!(back, addresses);
}

#[test]
fn sequence_decoding_short_circuits_to_first_error() {
    // The first bad element carries UnknownVariant, the second
    // InvalidLength; the first error wins.
    let pb = vec![
        sample_signature().to_pb(),
        wire::SignatureWire { kind: None },
        wire::SignatureWire {
            kind: Some(wire::Secp256k1Signature {
                r: vec![0; 1],
                s: vec![0; 1],
            }),
        },
    ];
    assert_eq!(
        Vec::<DigitalSignature>::from_pb(pb),
        Err(ConversionError::UnknownVariant)
    );
}

#[test]
fn empty_values_round_trip() {
    let no_addresses: Vec<Address> = Vec::new();
    let pb = no_addresses.to_pb();
    assert!(pb.is_empty());
    assert_eq!(Vec::<Address>::from_pb(pb).unwrap(), no_addresses);

    let empty = String::new();
    assert_eq!(String::from_pb(empty.to_pb()).unwrap(), empty);

    let no_bytes: Vec<u8> = Vec::new();
    assert_eq!(Vec::<u8>::from_pb(no_bytes.to_pb()).unwrap(), no_bytes);
}

#[test]
fn generic_round_trip_returns_the_value() {
    let address = Address {
        ip: IpAddress::Ipv6 {
            ip0: 1,
            ip1: 2,
            ip2: 3,
            ip3: 4,
        },
        port: 65535,
    };
    assert_eq!(pb_round_trip(&address).unwrap(), address);

    let sig = sample_signature();
    assert_eq!(pb_round_trip(&sig).unwrap(), sig);

    let proof_value = LeadershipProof {
        block_sig: Some(sig),
        influence: 3,
    };
    assert_eq!(pb_round_trip(&proof_value).unwrap(), proof_value);

    let x: [u8; 32] = [0xAA; 32];
    assert_eq!(pb_round_trip(&x).unwrap(), x);

    assert_eq!(pb_round_trip(&-100i8).unwrap(), -100i8);
    assert_eq!(pb_round_trip(&60000u16).unwrap(), 60000u16);
    assert_eq!(pb_round_trip(&-30000i16).unwrap(), -30000i16);
}
