use kryptering::algorithm::{HashAlgorithm, SignatureAlgorithm};
use kryptering::key::SoftwareKey;
use kryptering::software::rsa::{
    extract_rsa_public, rsa_key_pair, rsa_pkcs1v15_checked_sign, rsa_pkcs1v15_sign, rsa_pkcs1v15_verify,
    rsa_pss_checked_sign, rsa_pss_sign, rsa_pss_verify,
};
use kryptering::software::sign::{SoftwareSigner, SoftwareVerifier};
use kryptering::traits::{Signer, Verifier};

const MESSAGE: &[u8] = b"message to sign";

const HASHES: [HashAlgorithm; 11] = [
    HashAlgorithm::Sha1,
    HashAlgorithm::Sha224,
    HashAlgorithm::Sha256,
    HashAlgorithm::Sha384,
    HashAlgorithm::Sha512,
    HashAlgorithm::Sha3_224,
    HashAlgorithm::Sha3_256,
    HashAlgorithm::Sha3_384,
    HashAlgorithm::Sha3_512,
    HashAlgorithm::Md5,
    HashAlgorithm::Ripemd160,
];

const MODULUS: &str =
    "ae3f549e6beffcef076a550d368082f02fb251a59e15bd6976a6aad07e0733c36c557a54ae431b09\
     f0393864426642e4767b609b2565a23377766cc394722d7140a1e853fb7d7f2a2dafb3a5b8c5af0b\
     a034aa9dfa07a6b461d7f84be0f78b1fca4ce1eda040100417094b9577e212c9bd01b3dba177505e\
     83f293fec129413121fa68e212b355560f7dfd13b5cbd8bf9daafed9bbafc5ebcafb37187e5daf16\
     9acecd4aab65f888ab15577388620394c6dc464ab85da2e5793a6f8bcf297a39";
const EXPONENT: &str =
    "3a55514ac7efcbc969be1b43151fe8b5e801d67b8f74cfb862d46112f35e0de23a7e5339ce2d00fc\
     4ec3993157594cc39736ae9cc1e4486cda6d76f3f2da56843792fc6841253e512c8249ae0d3180ec\
     6f71b23cb8db9edf7c7204d9c2329d0c35dde204f66c41b552ffa56d7961259d8eaf236af1ac7f6e\
     a536902dbf8cb988a3bb7a2dbe71e2417421fc7a975afa9d29b2ac34c5f039a52402fc9aaa5156c6\
     f943e6d059a8131550c63a4e5af520338a2adf871cb765200905b44d5d552b91";
const FIRST_FACTOR: &str =
    "de96fce8039877035856747c189c2d33ce100678ee55974da9e2533d2e812f002c85d3d16f3fb2a1\
     1f5ec10836b5acf9d9e416a0fcebc14559b6f629b6aa768c63d8bed4b32594e5560d410f48d04737\
     4a69e2273ef73580a0ddbc520febdcaf";
const SECOND_FACTOR: &str =
    "c866c92006070ab9d73cb4dffa85cdb450578a139f9515c494bd8859373e108ab21af2c5057803bf\
     457e34d9bec6cde9773c5042fcf80436d41e354abceb2b3016d1173b7bb943530290f1539e3a47e8\
     aeeb29130ae57ee7216278d94d546197";

fn hex(text: &str) -> Vec<u8> {
    (0..text.len() / 2)
        .map(|i| u8::from_str_radix(&text[2 * i..2 * i + 2], 16).unwrap())
        .collect()
}

fn number(text: &str) -> rsa::BigUint {
    rsa::BigUint::from_bytes_be(&hex(text))
}

fn private_key() -> rsa::RsaPrivateKey {
    rsa::RsaPrivateKey::from_components(
        number(MODULUS),
        rsa::BigUint::from(65537u32),
        number(EXPONENT),
        vec![number(FIRST_FACTOR), number(SECOND_FACTOR)],
    )
    .expect("a valid key")
}

fn full_key() -> SoftwareKey {
    let private = private_key();
    let public = private.to_public_key();
    SoftwareKey::Rsa {
        private: Some(private),
        public,
    }
}

fn public_only() -> SoftwareKey {
    SoftwareKey::Rsa {
        private: None,
        public: private_key().to_public_key(),
    }
}

/// A key with a factor that is the product of two primes.
fn unsound_key() -> SoftwareKey {
    key_of_factors(
        "90f0a30cc9138faf04215d58a6f0aadc22b80bb4d8c866e26102659af191f36b",
        "c2b38755cd37880e16ac4191a26aa0ae044f1574f037afc644d82a531289bafb",
    )
}

fn key_of_factors(first: &str, second: &str) -> SoftwareKey {
    let factor = |digits: &str| {
        rsa::BigUint::parse_bytes(digits.as_bytes(), 16).expect("hexadecimal digits")
    };
    let private = rsa::RsaPrivateKey::from_p_q(factor(first), factor(second), factor("10001"));
    rsa_key_pair(private.expect("a key"))
}

/// A key whose modulus is too short for the longer encodings.
fn short_key() -> SoftwareKey {
    let private = rsa::RsaPrivateKey::new(&mut rand::rngs::OsRng, 512).expect("key generation");
    let public = private.to_public_key();
    SoftwareKey::Rsa {
        private: Some(private),
        public,
    }
}

#[test]
fn pkcs1v15_signatures_have_the_known_values() {
    let expected: [(HashAlgorithm, &str); 11] = [
        (
            HashAlgorithm::Sha1,
            "59fc7864cb63507906af2dbc2177e1656064bfb947ac52c4e0faf51bcb0d6a405f30557a43fa78db\
             d534f8d4dd1e00dd55de489e3a239a4aa777395691826042eba3d52afdd164d5368226a45be3c584\
             2bff156adf6c53b133a7d281612923cbb6f27528a9c905a9d185454e108dcf6193f9c504a5411f53\
             f96d960bba0e64b40be0496320d236b729a2cbfebb661ab474de9b643b37fb20125757694aac0268\
             9dd2ef057d30b39a6a0807872976630b17a8dae0f28e2689ca4980a93dd2ce72",
        ),
        (
            HashAlgorithm::Sha224,
            "5e5aeb66f55bc3d53f3a35786fbd5491bbd58e46170ea40e915a549636aab874b49ed368c51272b1\
             dbdca4e55ffcbb5aa21814ff3301e6062d7c51cc30ce0b93d51c1258552be9574f7f377cd92d924b\
             b2a9fadcd9551c8948c6bf7f3f29e8bcd19fdf31553d17673f76036a7c8a8ffac482a7e3952ca8fa\
             84bbf6ef90789f400df49913042b4961d863fca1427b2e7cbc83ecfc50f7dc7cfb2bab90f0026b7f\
             4c89a89a071441007a99ca92937a4dc580333cd8a79e49c2a339f4a6cbaae142",
        ),
        (
            HashAlgorithm::Sha256,
            "00142a8b7537b6e9575b8ae776044b4325c405b8e6e98cd08f2d89fa74dfb5c38e90507a6c071e4f\
             f6660559bf5eba88ee533387e24842cbe951471b65ea6459102ddc3a14325dd393d19bb8690f53f9\
             1aca9e196ebc6b5baeeae832d043b8b128312427f84dbe2a07ca90e600cc7f9622240ae13703105d\
             c01c61e4e9173ac99b9cd54348953768ab7b7a887a06b84990b44291027ff63d9b8cfd949d75bbea\
             4f64781e62081e218f9744b15a84f8a83d35e05d2279fec261c5fdaece331d7c",
        ),
        (
            HashAlgorithm::Sha384,
            "5a110af62d29797f534e7457733768d495126b6513a9c48c2112bf3f91247df6994d0cd9282aeb9e\
             136673c8e653f17705b9412849cb511bf238d9c60be499a5b3f504f3d83b1103a26a2dd47db240ec\
             9e54928dcb565b94e2f43d8d0b54780b4ca85f0dbcabe114cc086b12d82112c13f11e5907e8e4b5f\
             14c83724f0b390c6dba3f835d86e818f552e7bddc6428a0fdd1dbd21bfbf96edc1fecc5d67decee0\
             a23dd1d36c85e5c79d3154faa34bc5b8747fadd5ac1f1f49191e525f93ad6f9a",
        ),
        (
            HashAlgorithm::Sha512,
            "38b52ab38a2252a97030caac47b24dedb7e25702056550ff927bbd45c70332fb45cbb0b4e3b18a0e\
             4cb5caa6a80c295bcc3fe454e65262e5913ce9460d92ed8c9316932685bc4830ad9ab6ca988ec893\
             ede1d790228219df53b0b53550f0877e08e224b9941d57bcc968af815638ae8222ac6868f32331e3\
             cc7b325f828eeab36346105332bc4c5b5f2dd11710af561fd52f1a6d26c454f8e6189526db49f567\
             0febc1fe5f3d2caab296a8cf4170ab16e522380b9bafcaa3afa13f406ce24910",
        ),
        (
            HashAlgorithm::Sha3_224,
            "82736f28c49b9e4114a02f2f71c8802945b09e9ab49b7598775c9da2687e840b908974d947619f61\
             035bacde7a32ea2e1e2a9717f64be94fa4ee11b8d3c8f021df7ca2c6eb81f522f6807034cd50c834\
             fb8421a2c3c6bcc2951886274259961b728a1019aae5e4f9ff7407de6540a635d3dc04074d443fb0\
             57415e496495d8bef1ff293796e59084356065622c134b2353b1e2383d952abcbb088538361a69f4\
             7367dea80905f22b7df4ce315737b27533fe9f9fbbd554a7eaa9706918a1e5ed",
        ),
        (
            HashAlgorithm::Sha3_256,
            "4e24988fd4e2004d5a7c9173b5e5b5c6af468fdf1dc513b351f54671b3dc41b8bc5993ca77226a3e\
             bcd191d9c774ce9ab9c131cbccf399f36ce1ffdad76fd5ec16bd1c8663d05c9600296014b56c6608\
             958becbadcd73c6cc42580ce479b0a0ac555b76e365bb9cbe4377ab89ff76cf709e2c2d7fd64da22\
             4db933fb47fba7dc4f3595ca48d58dd44209fe1afb8f5f1d492c912725fad0aa66951a4fc4990f24\
             54f45f795b1f688b441932d4e56b665fdae5570433ed831e2b4422adf3652f70",
        ),
        (
            HashAlgorithm::Sha3_384,
            "446337f86c6a1e0834ffad92f2e1ff55751a4b1a9d9bc2d9028471d61727eb6c8deb85953286596d\
             1bc837b74ba1fe7cf401a87ec603fc43c3bfa9bad17dbdd822c11b02c3f5ccc7b82fa2b77f12c4ba\
             592de395de826dc30cedc9f80144a2ec461d3e97fd7d9fa439489b4799b5d2f6a5739e7f4588ac09\
             db714a84c818d94256d3079efc7a75407526f43a61f4867313630227b679cbad989ac5afbd4fcbef\
             26edd84b51885993a63552b78001e14bee00cde298d8d9210c839ca98b4831f8",
        ),
        (
            HashAlgorithm::Sha3_512,
            "6cb9b94541901f2c8f9e652fe9c7619beaa982771de5f0f9f905d77f18ebc8e61543b66a68461b28\
             82511e01c447e9178b5cb11465279809a16c5af0317a81cdf5e7ea38476697085f946406dd021727\
             c6a18227084127dc0539c5e3e0061e5d30998ac4cbc675fe4126897ca933d5dfb9e77541a2bc98ab\
             75f52cfb145d9f75af8455bc8317ee0f8a0b69bf49d56b61e28449d75360cc5cd520aa7c1164043e\
             4275141d0f19af84a745419a51d6205961033e522b162be63ff69d34ee373249",
        ),
        (
            HashAlgorithm::Md5,
            "143516f84bc66dddd5c35a6a3f2d4ef38071a2d48590075382bd08bc09834a4fe93a0b2959cc117a\
             20db89f540ec7589163b6208df279db884570359415ccb4d53e0df18ffa79e2d59af36df5a14160b\
             54073afd4794ddfffe205fa2cfdfe031460c93b78f70332c5dba5cb1a6339d32c1ad645569945a7a\
             913dcf349f0270fe58fc4c05afe9ede31ef8f374d19329cfe66bd8c579c711691ecadbfab15046ec\
             7d2d04e1bbf0963bb3c5518045382b5890ebb555aae7b325b07a2622054b7a7e",
        ),
        (
            HashAlgorithm::Ripemd160,
            "2ce48bc5b141c568e895e7d6c7f9140e5b3426b2aed810c60dfd8fa152d64a7dfe49b7ba2e023189\
             bbbd0c9d795b15c9eb990e842845c4725b298a436e927985dbc558e68894399ba3d8e25591c53e1c\
             88b5b3d1981ae659a33bb761d56086fe2ce1dc3d97818019218733c1b2589ac690065eb5c56bb02e\
             28080b551ad258bd467b6081d9f537a073d01ec4d000938665b59370d912914b9109e4684cb54a68\
             7fe1993e815b919fba07ad8a4413c8b45c0a338ccd137225ef45f07b3de91e45",
        ),
    ];
    for (hash, signature) in expected {
        let signed = rsa_pkcs1v15_sign(&full_key(), hash, MESSAGE).expect("signing");
        assert_eq!(signed, hex(signature), "{}", hash.debug_name());
    }
}

#[test]
fn pss_signatures_of_others_verify() {
    let known: [(HashAlgorithm, &str); 11] = [
        (
            HashAlgorithm::Sha1,
            "0132e05579040e0596e7b7b69979d1f07e7894a92142e804744cb5643f5c30184717f471e6c3bda3\
             b9f64bd74939701303b3ba7c9602851becad9e2c5a2637c12a61ca1eaca6fc888941e121883b6d1b\
             1d1ab6f6d0348d56c7261d43b762a9beb325e9586044ac118955a5d88329ac7bcd5408401215e220\
             98b705246c29ddc37b35d1389b5becf9f6946ae18aa6418b571c38bd3b8423340cbe76c174153f95\
             6fa766e3039cab017c5c7b5bbf01ee7035b617479080c48e15eb69cd9c659baf",
        ),
        (
            HashAlgorithm::Sha224,
            "2861e2f5192340cea9433a44f142c9eb159ca20b471c19ca340ee9eaf03528a048ddb5bf2600b476\
             fe08002b0a4f95a2c1508fdbbbf5456f7566f453d99317af3358291d2ecbd9c7f1eaccc5dc1afb22\
             7326f1aa187c5aca5ec5dcdaa031b3b44fe58b3fb371506d96f19087057fe20d6d6c2a38d7f5f85c\
             b48c16a97764cbbf8e8e65c01bd8869e9faaf4e4ee276b7d956fa52fb09404706d8f29c0b1da62a5\
             649dd39551602d967a61e3d6314cbabc6259ea85cfdb03960b3a126125f5097d",
        ),
        (
            HashAlgorithm::Sha256,
            "0aca735559f361197fb9acc9ec511e7ae90b80edf95a801afd66c374720f6544c95ef82071cb9771\
             b83474b4d22eea5b1094cd3888eb797942248899a70558ea76c1768486f14f8db3cc8906b84e89e8\
             dff1e652edc993444085b19a5646d669f3e49a63b9d4c49b1d45409f40993d4cf1b0917f03b1f67a\
             d06b9d83e8508bd6d37e19e0e09b9b6e08147c2fa3e716c043454f081bd0008b4a9ca1870c684ea1\
             8a10df567f1613e8d84141361427a5f158217b46c182f9acd4e3caf57c04ed23",
        ),
        (
            HashAlgorithm::Sha384,
            "2707400e8fcbc5e19f41dc29ab7c192ffda4a8c896da13952aa75c305ba0d7dd6d34d19073d708ca\
             cadf782bec4336ac9a03ce0beb9fce4161f23d8d78919d87cd4ad30074e3d78a513655994f4fc017\
             43b23b885322c2fb2d22463412e381e805999b4e7fbfd567f8a680059ed32f9fc09160916e614da6\
             c04ac06847fbe22583039af66f8bd499c09b8e238c29c84dfea9d9230748aa424c5669523e16b2ff\
             98cbc0d0dfebeb7b8c102a9307d92ffefe4f895c5c7861f3389c130df65fcc0c",
        ),
        (
            HashAlgorithm::Sha512,
            "32223e540987bf69505355fa2ffd3f925743f1471a82a6dc0b9d694efb89281763a0f9bcb20ff350\
             ad32b044cc739b4b965026d62243d9479a290ded024810d9d718e250ae8053de032cca2ccfd03ec7\
             78aab2f07b5716acd157d8b7f1ec96ce25623bd882d120c160067e233b0f7aac8e5ba45b2a02ffc5\
             eb190f657ad45a89c8cde755d424c17ac3ccd2c0fec98f124c4dfbdd734ca3575bdb66ff58a32b33\
             f0f16d0161434c88e368c217df34ac2c2e22b5ef3ab42f0954e4912a30af38c3",
        ),
        (
            HashAlgorithm::Sha3_224,
            "1948bd7b952fd4fcec358674d219bdc12f889f308ffcf55eeb3dc15e64a90a0ca2f5ce91ac5f1ec8\
             a006c00c04943b61966e1b43c9d24cd3fb0a6f082fd4628e7a9c83af5e063f1f9b74cd77a2ac2a06\
             45279d6f24a9e3168f4e873745ff4c44ee693ad7aa9b54cdb2af4409999c42c3f93538511666d345\
             34b691bc6f2ac9a6bd55f00c82957ce9e92c02842cea128a7fb8c887303bba1401fd995f9d8916ce\
             770e3697f785f729013ee630de26330977f9ec5bda222d651d419c5bea670b58",
        ),
        (
            HashAlgorithm::Sha3_256,
            "97484921660d95540ee85e66f242f3da6d65c4ac955ad7f6a0bd690054c7b70d311dc6e9426be371\
             fbe46c3b90baa892616d4010d7caf44eb11e2387dcebad2fc479bf82b699762d9112a3a723c063d0\
             bada18fcc997c5ff0f58c6c74c5add925bb9cb9d4c51522b3bd8a7fccf833f7c2d1ca1363595c79f\
             be7f75367c7e7f8a7bfb7f322395b8daabda374dfce7e9f23a702a8f90c943ba07bc69ae798be95e\
             9544a0d100fe503b5cbb23be50f9a6e782ea39459473be5a81f85d77fb4661a1",
        ),
        (
            HashAlgorithm::Sha3_384,
            "6a224063eccd144a96c998755d6af57f1f7f8a700f568bf38c198093df0302175b42ec0085730477\
             d6cf17529947aa8b8a1dfbf0c843b3f4417fc98048eebc3b87d35e26a009a772ee4eefd62ed4896a\
             70b352f652c9cbb24984a7fb14705919d3b0a1520335ea582e23f4180b3b430142ee498f23a5f832\
             d86d33c27f61b8757b72b240f681c8720550748a1cb1b87963b88b2ff2606c032de5003ea0cbf3bc\
             0ac1bed21021b2ef31439bf79c17aee0d255eb387a6f2c4860b7b9f9746e98de",
        ),
        (
            HashAlgorithm::Sha3_512,
            "20c3ff57a382d226f305aca0fae3f735eb3ddfe1b44e60b02611bfbee0363680424b8939e3532ca0\
             b34881853ceaf7382cc25440aef709a0ce67a9d4f622d3c39eca72ae142e1382ef8c57b0ec3564d5\
             744f99848db3eaafde2d5e5ce66f2e686ec1de138ebed7cae6909729bf2579f3c6daffd6a2b67ecc\
             e3b13037ddc2aab4528c4d9e36f8ef928085c8fff7a0df78dc3324a8fab85a18ae7be809bce11819\
             ec69b358b3b389d986adfa3bac98dd5bdbe2a15de36408e302f24f4f06ecd6ac",
        ),
        (
            HashAlgorithm::Md5,
            "48aca270551258fe9eb9b853adb95ab4c6fd8abee74331a85789bb396876493c32725ca0cc0bcfc5\
             a6a4d43bdc6ed6a995be8f28e518134abfccc5e72113edb5318f53709e7b0993a6ae431241b3d578\
             d1c9788049ef923782846712eed81b7b30cccc11e91996de7f87bb095fea2992f7111d0e5c4057df\
             06fb461d21c0659159de4a2fb7beb6be0ffdc391bc951d307d77a000c9ec8892f5e008b6caaaa3db\
             41702ed78098ff525a8f6a69b11fb5a5b34dc51b7362470a0be2f922795872b8",
        ),
        (
            HashAlgorithm::Ripemd160,
            "3ca3eca3f4d736b6ba788fa7bf386adcc2fec9301bbc6979e49a593a950bef849a1ee04213d9214c\
             2597d060aea4727cc74164aefef9568d0a2f3512c0b0097a69c9ec137568d9ffc1709f9296567b76\
             b0e34930b52c5b9fc126b66dbec2eebe9f035fdb5e7c28aff4d1e11dce53343a5195a6d2f135a2f7\
             91dd6406f20dd030e71bfa02c07da4c33d883ed6d3663dd911a2e25fe3c91ef51504eb72cc86175c\
             e1dff2d652643726c2e4db73a7d693b7e8dbed07388a11a7b625729eb21fb116",
        ),
    ];
    for (hash, signature) in known {
        let signature = hex(signature);
        assert!(rsa_pss_verify(&public_only(), hash, MESSAGE, &signature).unwrap());
        assert!(!rsa_pss_verify(&public_only(), hash, b"another", &signature).unwrap());
        assert!(!rsa_pkcs1v15_verify(&public_only(), hash, MESSAGE, &signature).unwrap());
    }
}

#[test]
fn pkcs1v15_round_trips_with_every_hash() {
    for hash in HASHES {
        let algorithm = SignatureAlgorithm::RsaPkcs1v15(hash);
        let signer = SoftwareSigner::new(algorithm, full_key()).expect("signer");
        let verifier = SoftwareVerifier::new(algorithm, public_only()).expect("verifier");
        assert_eq!(Signer::algorithm(&signer), algorithm);
        assert_eq!(Verifier::algorithm(&verifier), algorithm);
        let signature = signer.sign(MESSAGE).expect("signing");
        assert_eq!(signature, signer.sign(MESSAGE).expect("signing again"));
        assert!(verifier.verify(MESSAGE, &signature).unwrap());
        assert!(!verifier.verify(b"another message", &signature).unwrap());
        assert!(!verifier.verify(MESSAGE, &signature[1..]).unwrap());
        assert!(!verifier.verify(MESSAGE, &[]).unwrap());
    }
}

#[test]
fn pss_round_trips_with_every_hash() {
    for hash in HASHES {
        let algorithm = SignatureAlgorithm::RsaPss(hash);
        let signer = SoftwareSigner::new(algorithm, full_key()).expect("signer");
        let verifier = SoftwareVerifier::new(algorithm, public_only()).expect("verifier");
        let first = signer.sign(MESSAGE).expect("signing");
        let second = signer.sign(MESSAGE).expect("signing again");
        assert_ne!(first, second, "the salt is random");
        assert!(verifier.verify(MESSAGE, &first).unwrap());
        assert!(verifier.verify(MESSAGE, &second).unwrap());
        assert!(!verifier.verify(b"another message", &first).unwrap());
        assert!(!verifier.verify(MESSAGE, &[]).unwrap());
    }
}

#[test]
fn checked_signing_tells_keys_that_are_too_short() {
    let key = short_key();
    assert!(rsa_pkcs1v15_checked_sign(&key, HashAlgorithm::Sha512, MESSAGE).is_none());
    assert!(rsa_pss_checked_sign(&key, HashAlgorithm::Sha256, MESSAGE).is_none());

    let signature = rsa_pkcs1v15_checked_sign(&key, HashAlgorithm::Sha256, MESSAGE)
        .expect("room for the encoding")
        .expect("signing");
    assert!(rsa_pkcs1v15_verify(&key, HashAlgorithm::Sha256, MESSAGE, &signature).unwrap());
    let signature = rsa_pss_checked_sign(&key, HashAlgorithm::Sha1, MESSAGE)
        .expect("room for the encoding")
        .expect("signing");
    assert!(rsa_pss_verify(&key, HashAlgorithm::Sha1, MESSAGE, &signature).unwrap());

    let signer = SoftwareSigner::new(
        SignatureAlgorithm::RsaPss(HashAlgorithm::Sha512),
        short_key(),
    )
    .expect("signer");
    assert!(signer.checked_sign(MESSAGE).is_none());
    let signer = SoftwareSigner::new(
        SignatureAlgorithm::RsaPkcs1v15(HashAlgorithm::Sha512),
        short_key(),
    )
    .expect("signer");
    assert!(signer.checked_sign(MESSAGE).is_none());
    let signer = SoftwareSigner::new(
        SignatureAlgorithm::RsaPkcs1v15(HashAlgorithm::Sha256),
        full_key(),
    )
    .expect("signer");
    assert_eq!(
        signer.checked_sign(MESSAGE).expect("room").expect("signing"),
        signer.sign(MESSAGE).expect("signing")
    );
}

#[test]
fn keys_whose_factors_are_not_prime_fail_to_sign() {
    let key = unsound_key();
    let hash = HashAlgorithm::Sha1;
    let failure = rsa_pss_sign(&key, hash, MESSAGE).unwrap_err().to_string();
    assert!(failure.starts_with("crypto error: RSA-PSS sign: "), "{}", failure);
    assert!(rsa_pss_checked_sign(&key, hash, MESSAGE).expect("room").is_err());
    assert!(rsa_pkcs1v15_checked_sign(&key, hash, MESSAGE).is_none());
}

#[test]
fn factors_may_be_far_apart() {
    let hash = HashAlgorithm::Sha1;
    let far = "80a4446bdfa3b9fcc078c5aac90d529f64fcc87ec4c5c1bc68562c8dde23710e6fa9dd1f0efe3b14\
        ab4bb1cbba09cbc2bfc4597520122a44a625227d9f758565";
    for key in [
        key_of_factors("3", far),
        key_of_factors(far, "3"),
        key_of_factors(
            "3b4d9808b23698e55fbf31bf8937b2388cb34c83f368c7b1c0952e2130ad60f",
            "3ead99d1ba5703282bcf5f3759f4f1356801b21871a48f00877723f68f3fc9a20d37",
        ),
    ] {
        let signature = rsa_pss_checked_sign(&key, hash, MESSAGE).expect("room").expect("signing");
        assert_eq!(signature.len(), 65);
        assert!(rsa_pss_verify(&key, hash, MESSAGE, &signature).unwrap());
        let signature = rsa_pkcs1v15_sign(&key, hash, MESSAGE).expect("signing");
        assert!(rsa_pkcs1v15_verify(&key, hash, MESSAGE, &signature).unwrap());
    }
    let one = rsa_pkcs1v15_sign(&key_of_factors("3", far), hash, MESSAGE).expect("signing");
    let other = rsa_pkcs1v15_sign(&key_of_factors(far, "3"), hash, MESSAGE).expect("signing");
    assert_eq!(one, other, "the order of the factors makes no difference");
}

#[test]
fn key_pairs_verify_what_they_signed() {
    let key = rsa_key_pair(private_key());
    assert_eq!(
        *extract_rsa_public(&key).expect("an RSA key"),
        private_key().to_public_key()
    );
    let hash = HashAlgorithm::Sha256;
    let signature = rsa_pkcs1v15_sign(&key, hash, MESSAGE).expect("signing");
    assert_eq!(signature.len(), rsa::traits::PublicKeyParts::size(&private_key()));
    assert!(rsa_pkcs1v15_verify(&key, hash, MESSAGE, &signature).unwrap());
}

#[test]
fn rsa_operations_ask_for_rsa_keys() {
    let hash = HashAlgorithm::Sha256;
    let other = SoftwareKey::Hmac(vec![1, 2, 3]);
    let text = |e: kryptering::error::Error| e.to_string();
    assert_eq!(
        text(rsa_pkcs1v15_sign(&other, hash, MESSAGE).unwrap_err()),
        "key error: RSA private key required"
    );
    assert_eq!(
        text(rsa_pkcs1v15_sign(&public_only(), hash, MESSAGE).unwrap_err()),
        "key error: RSA private key required"
    );
    assert_eq!(
        text(rsa_pss_sign(&public_only(), hash, MESSAGE).unwrap_err()),
        "key error: RSA private key required for PSS"
    );
    assert_eq!(
        text(rsa_pkcs1v15_verify(&other, hash, MESSAGE, &[]).unwrap_err()),
        "key error: RSA key required"
    );
    assert_eq!(
        text(rsa_pss_verify(&other, hash, MESSAGE, &[]).unwrap_err()),
        "key error: RSA key required"
    );
    assert_eq!(
        text(extract_rsa_public(&other).unwrap_err()),
        "key error: RSA key required"
    );
    assert!(extract_rsa_public(&public_only()).unwrap() == &private_key().to_public_key());
}
