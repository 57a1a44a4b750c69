use keyutils::environment::{Environment, KernelVersion, KeyQuota};
use keyutils::error::{Error, ErrorKind, ErrorSource, EACCES, ENOKEY, EPERM};
use keyutils::key::Key;
use keyutils::keyring::Keyring;
use keyutils::keytype::KeyKind;
use keyutils::keytypes::asymmetric::AsymmetricRestriction;
use keyutils::keytypes::dns_resolver::DnsEntry;
use keyutils::keytypes::encrypted;
use keyutils::keytypes::encrypted::MasterKeyType;
use keyutils::keytypes::trusted;
use keyutils::keytypes::{
    Asymmetric, BigKey, Blacklist, DnsResolver, Encrypted, Logon, RxRpc, Trusted, User,
};
use keyutils::request::Request;
use keyutils::rules::{check_add_key, check_description, check_service_prefix, check_update};
use keyutils::serial::{KeySerial, SpecialKeyring};

fn caller(kind: ErrorKind) -> Error {
    Error { source: ErrorSource::Caller, kind }
}

fn invalid() -> Error {
    caller(ErrorKind::InvalidArgument)
}

fn environment(page_size: usize, qnbytes: usize, maxbytes: usize) -> Environment {
    Environment {
        version: KernelVersion { major: 5, minor: 15 },
        page_size,
        quota: KeyQuota { usage: 1, nkeys: 1, nikeys: 1, qnkeys: 1, maxkeys: 10, qnbytes, maxbytes },
    }
}

fn ring() -> Keyring {
    Keyring::new(KeySerial::new(77).unwrap())
}

#[test]
fn empty_description_is_invalid_for_every_type() {
    let env = environment(4096, 0, 20000);
    let kinds = [
        KeyKind::User,
        KeyKind::Logon,
        KeyKind::BigKey,
        KeyKind::Keyring,
        KeyKind::Encrypted,
        KeyKind::Asymmetric,
        KeyKind::Trusted,
        KeyKind::DnsResolver,
        KeyKind::Blacklist,
        KeyKind::RxRpc,
        KeyKind::RxRpcServer,
    ];
    for kind in kinds {
        assert_eq!(ring().add_raw_key_request(None, kind, "", b""), Err(invalid()));
        assert_eq!(ring().add_raw_key_request(Some(&env), kind, "", b"payload"), Err(invalid()));
    }
    assert_eq!(ring().add_key_request::<User>(None, "", b"payload"), Err(invalid()));
    assert_eq!(ring().add_key_request::<Blacklist>(None, "", &()), Err(invalid()));
    let entry = DnsEntry { result: b"x".to_vec(), error: None };
    assert_eq!(ring().add_key_request::<DnsResolver>(None, "", &entry), Err(invalid()));
}

#[test]
fn the_request_carries_what_was_given() {
    let request = ring().add_key_request::<User>(None, "wibble", b"stuff").unwrap();
    assert_eq!(
        request,
        Request::AddKey {
            kind: KeyKind::User,
            description: b"wibble".to_vec(),
            payload: b"stuff".to_vec(),
            keyring: KeySerial::new(77).unwrap(),
        }
    );
    let request = ring().add_key_request::<keyutils::keytypes::Keyring>(None, "sub", &()).unwrap();
    assert_eq!(
        request,
        Request::AddKey {
            kind: KeyKind::Keyring,
            description: b"sub".to_vec(),
            payload: Vec::new(),
            keyring: KeySerial::new(77).unwrap(),
        }
    );
    let entry = DnsEntry { result: b"192.0.2.7".to_vec(), error: None };
    let request = ring().add_key_request::<DnsResolver>(None, "a:host", &entry).unwrap();
    assert_eq!(
        request,
        Request::AddKey {
            kind: KeyKind::DnsResolver,
            description: b"a:host".to_vec(),
            payload: b"192.0.2.7\0".to_vec(),
            keyring: KeySerial::new(77).unwrap(),
        }
    );
    let session = Keyring::new(SpecialKeyring::Session.serial());
    let request = session.add_raw_key_request(None, KeyKind::RxRpc, "afs@cell", &[1, 2, 3]).unwrap();
    assert_eq!(
        request,
        Request::AddKey {
            kind: KeyKind::RxRpc,
            description: b"afs@cell".to_vec(),
            payload: vec![1, 2, 3],
            keyring: KeySerial::new(-3).unwrap(),
        }
    );
}

#[test]
fn descriptions_with_a_nul_are_invalid() {
    assert_eq!(ring().add_key_request::<User>(None, "a\0b", b"x"), Err(invalid()));
    assert_eq!(check_description(None, b"\0"), Err(invalid()));
    assert_eq!(check_description(None, b"ok"), Ok(()));
}

#[test]
fn reserved_keyring_names_are_denied() {
    assert_eq!(
        ring().add_key_request::<keyutils::keytypes::Keyring>(None, ".builtin", &()),
        Err(caller(ErrorKind::PermissionDenied))
    );
    assert_eq!(
        ring().add_raw_key_request(None, KeyKind::Keyring, ".", b""),
        Err(caller(ErrorKind::PermissionDenied))
    );
    // With a payload the keyring is invalid before its name is looked at.
    assert_eq!(ring().add_raw_key_request(None, KeyKind::Keyring, ".x", b"p"), Err(invalid()));
    // Other types may be named so.
    assert!(ring().add_key_request::<User>(None, ".hidden", b"x").is_ok());
    assert!(ring().add_key_request::<keyutils::keytypes::Keyring>(None, "a.b", &()).is_ok());
}

#[test]
fn payloadless_types_take_no_payload() {
    assert_eq!(ring().add_raw_key_request(None, KeyKind::Blacklist, "bin:00", b"x"), Err(invalid()));
    assert!(ring().add_raw_key_request(None, KeyKind::Blacklist, "bin:00", b"").is_ok());
    assert!(ring().add_key_request::<Blacklist>(None, "bin:00", &()).is_ok());
}

#[test]
fn logon_descriptions_name_a_service() {
    assert!(check_service_prefix(b"svc:id"));
    assert!(check_service_prefix(b"a:"));
    assert!(check_service_prefix(b"a:b:c"));
    assert!(!check_service_prefix(b":id"));
    assert!(!check_service_prefix(b"svcid"));
    assert!(!check_service_prefix(b""));
    assert!(ring().add_key_request::<Logon>(None, "fscrypt:0123", b"secret").is_ok());
    assert_eq!(ring().add_key_request::<Logon>(None, "plain", b"secret"), Err(invalid()));
    assert_eq!(ring().add_key_request::<Logon>(None, ":x", b"secret"), Err(invalid()));
    assert!(ring().add_key_request::<User>(None, "plain", b"secret").is_ok());
}

#[test]
fn payloads_are_bounded_by_the_page_but_for_big_keys() {
    let env = environment(4096, 0, 1 << 30);
    let fits = vec![0x55u8; 4072];
    let over = vec![0x55u8; 4073];
    assert!(ring().add_key_request::<User>(Some(&env), "k", &fits).is_ok());
    assert_eq!(ring().add_key_request::<User>(Some(&env), "k", &over), Err(invalid()));
    assert_eq!(ring().add_key_request::<Asymmetric>(Some(&env), "k", &over), Err(invalid()));
    assert!(ring().add_key_request::<BigKey>(Some(&env), "k", &over).is_ok());
    let big = vec![0u8; 1 << 20];
    assert!(ring().add_key_request::<BigKey>(Some(&env), "k", &big).is_ok());
    // Without the facts of the system the kernel is left to judge.
    assert!(ring().add_key_request::<User>(None, "k", &over).is_ok());
    assert_eq!(check_add_key(Some(&env), KeyKind::Trusted, b"k", &over), Err(invalid()));
}

#[test]
fn the_quota_is_held_against_the_whole_key() {
    // 10 used of 30: "abcd" + NUL + 15 bytes fills it.
    let env = environment(4096, 10, 30);
    assert!(ring().add_key_request::<User>(Some(&env), "abcd", &[0; 15]).is_ok());
    assert_eq!(
        ring().add_key_request::<User>(Some(&env), "abcd", &[0; 16]),
        Err(caller(ErrorKind::QuotaExceeded))
    );
    assert_eq!(
        ring().add_key_request::<BigKey>(Some(&env), "abcde", &[0; 15]),
        Err(caller(ErrorKind::QuotaExceeded))
    );
    let mut full = env;
    full.quota.qnkeys = 10;
    assert_eq!(
        ring().add_key_request::<User>(Some(&full), "a", b""),
        Err(caller(ErrorKind::QuotaExceeded))
    );
    // What is invalid is invalid whatever the quota.
    assert_eq!(ring().add_key_request::<User>(Some(&full), "", b""), Err(invalid()));
    assert_eq!(ring().add_key_request::<Logon>(Some(&full), "nocolon", b""), Err(invalid()));
}

#[test]
fn updates_follow_the_type() {
    let serial = KeySerial::new(9).unwrap();
    let user = Key::<User>::new(serial);
    assert_eq!(
        user.update_raw_request(None, b"lizard"),
        Ok(Request::Update { key: serial, payload: b"lizard".to_vec() })
    );
    assert_eq!(user.update_raw_request(None, b""), Ok(Request::Update { key: serial, payload: vec![] }));
    assert_eq!(Key::<Asymmetric>::new(serial).update_raw_request(None, b"x"), Err(invalid()));
    assert_eq!(Key::<Blacklist>::new(serial).update_raw_request(None, b""), Err(invalid()));
    assert_eq!(ring().as_key().update_raw_request(None, b""), Err(invalid()));
    let encrypted = Key::<Encrypted>::new(serial);
    assert_eq!(encrypted.update_raw_request(None, b"qux"), Err(invalid()));
    assert_eq!(encrypted.update_raw_request(None, b"new default user:foo 32"), Err(invalid()));
    assert_eq!(
        encrypted.update_raw_request(None, b"update user:bar"),
        Ok(Request::Update { key: serial, payload: b"update user:bar".to_vec() })
    );
    let trusted = Key::<Trusted>::new(serial);
    assert_eq!(trusted.update_raw_request(None, b"qux"), Err(invalid()));
    assert!(trusted.update_raw_request(None, b"update migratable=0").is_ok());
    assert_eq!(check_update(None, KeyKind::RxRpcServer, b"anything"), Ok(()));
    let env = environment(4096, 0, 8);
    assert!(user.update_raw_request(Some(&env), &[0; 8]).is_ok());
    assert_eq!(user.update_raw_request(Some(&env), &[0; 9]), Err(caller(ErrorKind::QuotaExceeded)));
    assert_eq!(user.kind(), KeyKind::User);
    assert_eq!(encrypted.kind(), KeyKind::Encrypted);
}

#[test]
fn typed_updates_are_encoded_as_the_type_says() {
    let serial = KeySerial::new(9).unwrap();
    assert_eq!(
        Key::<User>::new(serial).update_request(None, b"lizard"),
        Ok(Request::Update { key: serial, payload: b"lizard".to_vec() })
    );
    assert_eq!(
        Key::<Logon>::new(serial).update_request(None, &[0, 1]),
        Ok(Request::Update { key: serial, payload: vec![0, 1] })
    );
    let entry_key = Key::<DnsResolver>::new(serial);
    assert_eq!(
        entry_key.update_request(None, b"192.0.2.9"),
        Ok(Request::Update { key: serial, payload: b"192.0.2.9".to_vec() })
    );
    let encrypted = Key::<Encrypted>::new(serial);
    let update = encrypted::Payload::Update {
        keytype: MasterKeyType::Trusted,
        description: "kmk".to_string(),
    };
    assert_eq!(
        encrypted.update_request(None, &update),
        Ok(Request::Update { key: serial, payload: b"update trusted:kmk".to_vec() })
    );
    let new = encrypted::Payload::New {
        format: None,
        keytype: MasterKeyType::User,
        description: "foo".to_string(),
        keylen: 32,
    };
    assert_eq!(encrypted.update_request(None, &new), Err(invalid()));
    let load = encrypted::Payload::Load { blob: b"update user:bar".to_vec() };
    assert_eq!(encrypted.update_request(None, &load), Err(invalid()));
    let spaced = encrypted::Payload::Update {
        keytype: MasterKeyType::User,
        description: "a b".to_string(),
    };
    assert_eq!(encrypted.update_request(None, &spaced), Err(invalid()));
    let sealed = Key::<Trusted>::new(serial);
    let options = trusted::Options { keyhandle: None, pcrlock: Some(2), migratable: None };
    assert_eq!(
        sealed.update_request(None, &trusted::Payload::Update { options }),
        Ok(Request::Update { key: serial, payload: b"update pcrlock=2".to_vec() })
    );
    assert_eq!(
        sealed.update_request(None, &trusted::Payload::New { keylen: 32, options }),
        Err(invalid())
    );
    let env = environment(4096, 0, 17);
    assert_eq!(
        encrypted.update_request(Some(&env), &update),
        Err(caller(ErrorKind::QuotaExceeded))
    );
}

#[test]
fn reading_hands_on_what_the_kernel_wrote() {
    let bytes = vec![0u8, 255, 10, 0];
    assert_eq!(Key::<User>::read_reply(Ok(bytes.clone())), Ok(bytes.clone()));
    assert_eq!(Key::<BigKey>::read_reply(Ok(Vec::new())), Ok(Vec::new()));
    assert_eq!(Key::<RxRpc>::read_reply(Ok(bytes.clone())), Ok(bytes.clone()));
    assert_eq!(
        Key::<User>::read_reply(Err(EACCES)),
        Err(Error { source: ErrorSource::Kernel, kind: ErrorKind::PermissionDenied })
    );
    assert_eq!(
        Key::<Encrypted>::read_reply(Err(EPERM)),
        Err(Error { source: ErrorSource::Kernel, kind: ErrorKind::PermissionDenied })
    );
    assert_eq!(
        Key::<Trusted>::read_reply(Err(ENOKEY)),
        Err(Error { source: ErrorSource::Kernel, kind: ErrorKind::KeyNotFound })
    );
    let key = Key::<User>::new(KeySerial::new(5).unwrap());
    assert_eq!(key.read_request(), Request::Read { key: KeySerial::new(5).unwrap() });
}

#[test]
fn describing_a_key() {
    let serial = KeySerial::new(5).unwrap();
    let key = Key::<Logon>::new(serial);
    assert_eq!(key.describe_request(), Request::Describe { key: serial });
    let what = Key::<Logon>::describe_reply(Ok(b"logon;1;2;3f010000;svc:id\0".to_vec())).unwrap();
    assert_eq!(what.kind(), Some(KeyKind::Logon));
    assert_eq!(what.description, b"svc:id");
    assert_eq!((what.uid, what.gid, what.perm), (1, 2, 0x3f01_0000));
    assert_eq!(
        Key::<Logon>::describe_reply(Ok(b"logon;1;2".to_vec())),
        Err(Error { source: ErrorSource::Kernel, kind: ErrorKind::InvalidArgument })
    );
    assert_eq!(
        Key::<Logon>::describe_reply(Err(ENOKEY)),
        Err(Error { source: ErrorSource::Kernel, kind: ErrorKind::KeyNotFound })
    );
}

#[test]
fn invalidating_needs_a_kernel_that_can() {
    let serial = KeySerial::new(5).unwrap();
    let key = Key::<User>::new(serial);
    assert_eq!(key.invalidate_request(None), Ok(Request::Invalidate { key: serial }));
    let mut env = environment(4096, 0, 100);
    assert_eq!(key.invalidate_request(Some(&env)), Ok(Request::Invalidate { key: serial }));
    env.version = KernelVersion { major: 3, minor: 4 };
    assert_eq!(
        key.invalidate_request(Some(&env)),
        Err(caller(ErrorKind::UnsupportedKeyType))
    );
    assert_eq!(key.revoke_request(), Request::Revoke { key: serial });
}

#[test]
fn keys_are_equal_by_serial() {
    let a = Key::<User>::new(KeySerial::new(5).unwrap());
    let b = Key::<User>::new(KeySerial::new(5).unwrap());
    let c = Key::<User>::new(KeySerial::new(6).unwrap());
    assert!(a == b);
    assert!(a != c);
    let copy = a;
    assert_eq!(copy.serial(), a.serial());
    assert_eq!(a.clone().serial().get(), 5);
    assert_eq!(Keyring::key_reply::<User>(Ok(5)).unwrap(), a);
    assert_eq!(ring().as_key().serial(), ring().serial());
}

#[test]
fn searching_and_asking_for_keys() {
    let here = KeySerial::new(77).unwrap();
    let there = Keyring::new(KeySerial::new(88).unwrap());
    assert_eq!(
        ring().search_request::<User>(None, "wibble", None),
        Ok(Request::Search {
            keyring: here,
            kind: KeyKind::User,
            description: b"wibble".to_vec(),
            destination: None,
        })
    );
    assert_eq!(
        ring().search_request::<Logon>(None, "x", Some(&there)),
        Ok(Request::Search {
            keyring: here,
            kind: KeyKind::Logon,
            description: b"x".to_vec(),
            destination: Some(there.serial()),
        })
    );
    assert_eq!(ring().search_request::<User>(None, "", None), Err(invalid()));
    let env = environment(8, 0, 100);
    assert!(ring().search_request::<User>(Some(&env), "1234567", None).is_ok());
    assert_eq!(ring().search_request::<User>(Some(&env), "12345678", None), Err(invalid()));
    assert_eq!(
        Keyring::request_key_request::<User>(None, "wibble", Some("hint"), Some(&there)),
        Ok(Request::RequestKey {
            kind: KeyKind::User,
            description: b"wibble".to_vec(),
            callout: Some(b"hint".to_vec()),
            destination: Some(there.serial()),
        })
    );
    assert_eq!(
        Keyring::request_key_request::<User>(None, "wibble", None, None),
        Ok(Request::RequestKey {
            kind: KeyKind::User,
            description: b"wibble".to_vec(),
            callout: None,
            destination: None,
        })
    );
    assert_eq!(
        Keyring::request_key_request::<User>(None, "wibble", Some("a\0b"), None),
        Err(invalid())
    );
    assert_eq!(Keyring::request_key_request::<User>(None, "", None, None), Err(invalid()));
}

#[test]
fn linking_and_restricting() {
    let here = KeySerial::new(77).unwrap();
    let key = Key::<User>::new(KeySerial::new(5).unwrap());
    let other = Keyring::new(KeySerial::new(88).unwrap());
    assert_eq!(ring().link_key_request(&key), Request::Link { key: key.serial(), keyring: here });
    assert_eq!(ring().unlink_key_request(&key), Request::Unlink { key: key.serial(), keyring: here });
    assert_eq!(
        ring().link_keyring_request(&other),
        Request::Link { key: other.serial(), keyring: here }
    );
    assert_eq!(
        ring().unlink_keyring_request(&other),
        Request::Unlink { key: other.serial(), keyring: here }
    );
    assert_eq!(
        ring().restrict_request(&AsymmetricRestriction::Key { serial: key.serial(), chained: true }),
        Ok(Request::Restrict {
            keyring: here,
            kind: KeyKind::Asymmetric,
            restriction: b"key_or_keyring:5:chain".to_vec(),
        })
    );
    assert_eq!(
        ring().restrict_request(&AsymmetricRestriction::Key {
            serial: SpecialKeyring::User.serial(),
            chained: false,
        }),
        Err(invalid())
    );
}
