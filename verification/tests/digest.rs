use kryptering::algorithm::HashAlgorithm;
use kryptering::bytes::{join, zero_bytes, zero_pad};
use kryptering::digest::{
    compute_hmac, constant_time_eq, digest, output_size, pad_prehash, xor_all, zero_extend,
};

fn hex(text: &str) -> Vec<u8> {
    (0..text.len() / 2)
        .map(|i| u8::from_str_radix(&text[2 * i..2 * i + 2], 16).unwrap())
        .collect()
}

#[test]
fn hashes_have_the_known_values() {
    let expected: [(HashAlgorithm, &str); 11] = [
        (
            HashAlgorithm::Sha1,
            "a9993e364706816aba3e25717850c26c9cd0d89d",
        ),
        (
            HashAlgorithm::Sha224,
            "23097d223405d8228642a477bda255b32aadbce4bda0b3f7e36c9da7",
        ),
        (
            HashAlgorithm::Sha256,
            "ba7816bf8f01cfea414140de5dae2223b00361a396177a9cb410ff61f20015ad",
        ),
        (
            HashAlgorithm::Sha384,
            "cb00753f45a35e8bb5a03d699ac65007272c32ab0eded1631a8b605a43ff5bed8086072ba1e7cc2358baeca134c825a7",
        ),
        (
            HashAlgorithm::Sha512,
            "ddaf35a193617abacc417349ae20413112e6fa4e89a97ea20a9eeee64b55d39a2192992a274fc1a836ba3c23a3feebbd454d4423643ce80e2a9ac94fa54ca49f",
        ),
        (
            HashAlgorithm::Sha3_224,
            "e642824c3f8cf24ad09234ee7d3c766fc9a3a5168d0c94ad73b46fdf",
        ),
        (
            HashAlgorithm::Sha3_256,
            "3a985da74fe225b2045c172d6bd390bd855f086e3e9d525b46bfe24511431532",
        ),
        (
            HashAlgorithm::Sha3_384,
            "ec01498288516fc926459f58e2c6ad8df9b473cb0fc08c2596da7cf0e49be4b298d88cea927ac7f539f1edf228376d25",
        ),
        (
            HashAlgorithm::Sha3_512,
            "b751850b1a57168a5693cd924b6b096e08f621827444f70d884f5d0240d2712e10e116e9192af3c91a7ec57647e3934057340b4cf408d5a56592f8274eec53f0",
        ),
        (
            HashAlgorithm::Md5,
            "900150983cd24fb0d6963f7d28e17f72",
        ),
        (
            HashAlgorithm::Ripemd160,
            "8eb208f7e05d987a9b044a8e98c6b087f15a0bfc",
        ),
    ];
    for (hash, value) in expected {
        assert_eq!(digest(hash, b"abc"), hex(value), "{}", hash.debug_name());
        assert_eq!(output_size(hash), value.len() / 2);
    }
}

#[test]
fn codes_with_a_short_key_have_the_known_values() {
    let expected: [(HashAlgorithm, &str); 11] = [
        (
            HashAlgorithm::Sha1,
            "22f9e077a3cebd09248154f85d9a56c79941fd96",
        ),
        (
            HashAlgorithm::Sha224,
            "aca35715b8cae3bcf41f49c9a5f88a174a2f38d4c78892a38061ed56",
        ),
        (
            HashAlgorithm::Sha256,
            "203d1e5cedd2d18f8c5a3beff0bd9c1ebcb97097dfcb288c46b00c9227fde2c0",
        ),
        (
            HashAlgorithm::Sha384,
            "60638fa0aa4b044fc6f50d5c4a11dd5c26863cd335e3aac16ac6434fc79505dfb05bc3d02a556e271979b41c9379f579",
        ),
        (
            HashAlgorithm::Sha512,
            "36f44b125a8a90639dc46733039571792e081e0fd8685ff746784b02ed14aa35629d562c7117cde4a701570551faa5a5e1b7ef1eb5c3bcd4cc1fdb8923fcf14e",
        ),
        (
            HashAlgorithm::Sha3_224,
            "56ea9366897b0b456f38ab435a4505aa2aff8e27e944c559c37addcd",
        ),
        (
            HashAlgorithm::Sha3_256,
            "f7005cd351f68062dae84960737be699fae731135019ae6455f44ad4b874fe67",
        ),
        (
            HashAlgorithm::Sha3_384,
            "4b19686d5bac96fc8cbfc15e74bf0fcb82383b2c24cc4f205b08c748416c8eecc3251f45106b6cd85c113d79d75ee3ad",
        ),
        (
            HashAlgorithm::Sha3_512,
            "fe05f476749b1e8a24f09b8e90d3dac161692f43495c7a664173f7dbb31205cc8fe50094f29ecbf7ea3d4c9796d84a83d949912c6513bc8f989d0fa2352cab67",
        ),
        (
            HashAlgorithm::Md5,
            "d006bc60c92ff6e54f615474fe835e02",
        ),
        (
            HashAlgorithm::Ripemd160,
            "e877bf284add1cea7055483c6b6ddfabf111f1c3",
        ),
    ];
    for (hash, value) in expected {
        let code = compute_hmac(hash, b"key", b"The quick brown fox");
        assert_eq!(code, hex(value), "{}", hash.debug_name());
    }
}

#[test]
fn codes_with_a_key_longer_than_a_block_have_the_known_values() {
    let expected: [(HashAlgorithm, &str); 11] = [
        (
            HashAlgorithm::Sha1,
            "05bae646f7d46e4336cead3a119941ced4b795a9",
        ),
        (
            HashAlgorithm::Sha224,
            "78722b3d5a59ec3a6ec388a3d6a9d21124e3316b91378c2bfc598d9a",
        ),
        (
            HashAlgorithm::Sha256,
            "e16c9da73f6698f4edca06dba34d2dcc1371f7825829b083e9faf78aa05a2d23",
        ),
        (
            HashAlgorithm::Sha384,
            "7f4979dc2f6fb4bb95c9eb47b43428c648866749a767e2dfee1f07c2b01f7b7935d464dcdd90aeb3fcfa2a681599b5d2",
        ),
        (
            HashAlgorithm::Sha512,
            "3810596bd662c8dbf0e052d211e0b26af70219cc99c82c96898826595d3902b9549b3cac6d858e10fac63415eb3f56c1438b7cd0639e6f977f1ace0d79df4f2a",
        ),
        (
            HashAlgorithm::Sha3_224,
            "49b194252f65fa7e9d4c76a235fc9c137957923d9a23175b9a9dbd1c",
        ),
        (
            HashAlgorithm::Sha3_256,
            "aa567ac0ad555fba9ab09bb8e53052f455e8fdba5dd1c30e0abf770e0b02c109",
        ),
        (
            HashAlgorithm::Sha3_384,
            "df0f7eae0d76d5b38fdb89d0917c469c8a48c271ade319e7283a03cae5eef22d96e25ac357929f0e360a6bf94bc60445",
        ),
        (
            HashAlgorithm::Sha3_512,
            "09fc28109e7114254a35a00059820863fe9c1e73872ade6fbddfec9a1b53725eb7620efcee00591b10686ec82f9dee5a84bb2d4bf264a0a8a5c3eb50ef395e37",
        ),
        (
            HashAlgorithm::Md5,
            "67d6da91565479d935690431aadff1e3",
        ),
        (
            HashAlgorithm::Ripemd160,
            "cba7b1eb0b4730fe1c59446e00a117471dd8c6fc",
        ),
    ];
    for (hash, value) in expected {
        let code = compute_hmac(hash, &[b'k'; 200], b"The quick brown fox");
        assert_eq!(code, hex(value), "{}", hash.debug_name());
    }
}

#[test]
fn comparison_is_equality() {
    assert!(constant_time_eq(b"", b""));
    assert!(constant_time_eq(b"same", b"same"));
    assert!(!constant_time_eq(b"same", b"sama"));
    assert!(!constant_time_eq(b"same", b"tame"));
    assert!(!constant_time_eq(b"same", b"same "));
    assert!(!constant_time_eq(b"", b"x"));
}

#[test]
fn hashes_are_padded_in_front_only() {
    assert_eq!(pad_prehash(&[1, 2], 4), [0, 0, 1, 2]);
    assert_eq!(pad_prehash(&[1, 2], 2), [1, 2]);
    assert_eq!(pad_prehash(&[1, 2, 3], 2), [1, 2, 3]);
    assert_eq!(zero_pad(&[], 3), [0, 0, 0]);
    assert_eq!(zero_bytes(2), [0, 0]);
    assert_eq!(join(&[1], &[2, 3]), [1, 2, 3]);
}

#[test]
fn key_blocks_are_filled_at_the_end() {
    assert_eq!(zero_extend(&[1, 2], 4), [1, 2, 0, 0]);
    assert_eq!(zero_extend(&[1, 2, 3], 2), [1, 2]);
    assert_eq!(xor_all(&[0x00, 0x36, 0xff], 0x36), [0x36, 0x00, 0xc9]);
}
