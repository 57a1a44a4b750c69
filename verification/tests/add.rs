use keyutils::environment::{Environment, KernelVersion, KeyQuota};
use keyutils::error::{Error, ErrorKind, ErrorSource, EDQUOT, EINVAL, ENODEV, ENOKEY};
use keyutils::key::Key;
use keyutils::keyring::Keyring;
use keyutils::keytype::KeyKind;
use keyutils::keytypes::encrypted::{Format, MasterKeyType, Payload};
use keyutils::keytypes::{BigKey, Encrypted, User};
use keyutils::request::{completed, Request};
use keyutils::serial::{KeySerial, SpecialKeyring};

struct StoredKey {
    serial: i32,
    kind: KeyKind,
    description: Vec<u8>,
    payload: Vec<u8>,
    links: Vec<i32>,
}

/// Stands in for the kernel: it keeps what it is sent and gives it back.
struct Store {
    next: i32,
    session: i32,
    process: i32,
    missing: Vec<KeyKind>,
    keys: Vec<StoredKey>,
}

impl Store {
    fn new() -> Store {
        Store { next: 1000, session: 0, process: 0, missing: Vec::new(), keys: Vec::new() }
    }

    fn fresh(&mut self) -> i32 {
        self.next += 1;
        self.next
    }

    fn resolve(&mut self, id: i32, create: bool) -> Result<i32, i32> {
        let made = self.fresh();
        let slot = match id {
            -2 => &mut self.process,
            -3 => &mut self.session,
            n if n > 0 => return Ok(n),
            _ => return Err(ENOKEY),
        };
        if *slot == 0 {
            if !create {
                return Err(ENOKEY);
            }
            *slot = made;
        }
        Ok(*slot)
    }

    fn find(&mut self, serial: i32) -> Result<&mut StoredKey, i32> {
        self.keys.iter_mut().find(|k| k.serial == serial).ok_or(ENOKEY)
    }

    fn stored(kind: KeyKind, payload: &[u8]) -> Result<Vec<u8>, i32> {
        match kind {
            KeyKind::Encrypted => {
                if let Some(rest) = payload.strip_prefix(b"new ") {
                    let mut blob = rest.to_vec();
                    blob.extend_from_slice(b" 00112233445566778899aabbccddeeff");
                    Ok(blob)
                } else if let Some(rest) = payload.strip_prefix(b"load ") {
                    Ok(rest.to_vec())
                } else {
                    Err(EINVAL)
                }
            },
            KeyKind::Keyring if !payload.is_empty() => Err(EINVAL),
            _ => Ok(payload.to_vec()),
        }
    }

    fn perform(&mut self, request: &Request) -> Result<i64, i32> {
        match request {
            Request::GetKeyringId { id, create } => {
                self.resolve(id.get(), *create).map(|serial| serial as i64)
            },
            Request::AddKey { kind, description, payload, keyring } => {
                let keyring = self.resolve(keyring.get(), false)?;
                if self.missing.contains(kind) {
                    return Err(ENODEV);
                }
                if description.is_empty() {
                    return Err(EINVAL);
                }
                let payload = Store::stored(*kind, payload)?;
                let serial = self.fresh();
                self.keys.push(StoredKey {
                    serial,
                    kind: *kind,
                    description: description.clone(),
                    payload,
                    links: vec![keyring],
                });
                Ok(serial as i64)
            },
            Request::Update { key, payload } => {
                let stored = self.find(key.get())?;
                if stored.kind == KeyKind::Encrypted {
                    if !payload.starts_with(b"update ") {
                        return Err(EINVAL);
                    }
                } else {
                    stored.payload = payload.clone();
                }
                Ok(0)
            },
            Request::Unlink { key, keyring } => {
                let keyring = self.resolve(keyring.get(), false)?;
                let stored = self.find(key.get())?;
                stored.links.retain(|l| *l != keyring);
                Ok(0)
            },
            Request::Invalidate { key } => {
                let serial = key.get();
                self.find(serial)?;
                self.keys.retain(|k| k.serial != serial);
                Ok(0)
            },
            _ => Err(EINVAL),
        }
    }

    fn fetch(&mut self, request: &Request) -> Result<Vec<u8>, i32> {
        match request {
            Request::Read { key } => Ok(self.find(key.get())?.payload.clone()),
            Request::Describe { key } => {
                let stored = self.find(key.get())?;
                let mut line = stored.kind.name().as_bytes().to_vec();
                line.extend_from_slice(b";1000;1000;3f010000;");
                line.extend_from_slice(&stored.description);
                line.push(0);
                Ok(line)
            },
            _ => Err(EINVAL),
        }
    }
}

fn attach_or_create(store: &mut Store, special: SpecialKeyring) -> Result<Keyring, Error> {
    let request = Keyring::attach_or_create_request(special);
    Keyring::attach_reply(store.perform(&request))
}

fn add_user_key(
    store: &mut Store,
    env: Option<&Environment>,
    keyring: &Keyring,
    description: &str,
    payload: &[u8],
) -> Result<Key<User>, Error> {
    let request = keyring.add_key_request::<User>(env, description, payload)?;
    Keyring::key_reply::<User>(store.perform(&request))
}

fn add_encrypted_key(
    store: &mut Store,
    keyring: &Keyring,
    description: &str,
    payload: &Payload,
) -> Result<Key<Encrypted>, Error> {
    let request = keyring.add_key_request::<Encrypted>(None, description, payload)?;
    Keyring::key_reply::<Encrypted>(store.perform(&request))
}

fn update_encrypted(store: &mut Store, key: &Key<Encrypted>, data: &[u8]) -> Result<(), Error> {
    let request = key.update_raw_request(None, data)?;
    completed(store.perform(&request))
}

fn page_environment(maxbytes: usize) -> Environment {
    Environment {
        version: KernelVersion { major: 5, minor: 15 },
        page_size: 4096,
        quota: KeyQuota {
            usage: 1,
            nkeys: 0,
            nikeys: 0,
            qnkeys: 0,
            maxkeys: 200,
            qnbytes: 0,
            maxbytes,
        },
    }
}

#[test]
fn missing_handler_is_an_unsupported_key_type() {
    let mut store = Store::new();
    store.missing.push(KeyKind::BigKey);
    let keyring = attach_or_create(&mut store, SpecialKeyring::Process).unwrap();
    let request = keyring.add_key_request::<BigKey>(None, "big", "payload".as_bytes()).unwrap();
    let err = Keyring::key_reply::<BigKey>(store.perform(&request)).unwrap_err();
    assert_eq!(err.kind, ErrorKind::UnsupportedKeyType);
    assert_eq!(err.source, ErrorSource::Kernel);
    assert_eq!(err.kind.errno(), ENODEV);
}

#[test]
fn keyring_with_payload() {
    let mut store = Store::new();
    let keyring = attach_or_create(&mut store, SpecialKeyring::Process).unwrap();
    let err = keyring
        .add_raw_key_request(None, KeyKind::Keyring, "", "payload".as_bytes())
        .unwrap_err();
    assert_eq!(err.kind.errno(), EINVAL);
    let err = keyring
        .add_raw_key_request(None, KeyKind::Keyring, "ring", "payload".as_bytes())
        .unwrap_err();
    assert_eq!(err, Error { source: ErrorSource::Caller, kind: ErrorKind::InvalidArgument });
}

#[test]
fn max_user_description() {
    let mut store = Store::new();
    let env = page_environment(20000);
    let keyring = attach_or_create(&mut store, SpecialKeyring::Process).unwrap();
    // Subtract one because the NUL is added in the kernel API.
    let maxdesc: String = std::iter::repeat('a').take(env.page_size - 1).collect();
    let res = add_user_key(&mut store, Some(&env), &keyring, &maxdesc, "payload".as_bytes());
    // If the user's quota is smaller than this, it's an error.
    if env.quota.maxbytes < env.page_size {
        assert_eq!(res.unwrap_err().kind.errno(), EDQUOT);
    } else {
        let key = res.unwrap();
        let what = Key::<User>::describe_reply(store.fetch(&key.describe_request())).unwrap();
        assert_eq!(what.description, maxdesc.as_bytes());
        let request = key.invalidate_request(Some(&env)).unwrap();
        completed(store.perform(&request)).unwrap();
    }
}

#[test]
fn quota_decides_for_the_longest_description() {
    // The key costs its description, the NUL and its payload: 4095 + 1 + 7.
    for (maxbytes, fits) in [(20000usize, true), (4103, true), (4102, false), (4095, false), (0, false)] {
        let mut store = Store::new();
        let env = page_environment(maxbytes);
        let keyring = attach_or_create(&mut store, SpecialKeyring::Process).unwrap();
        let maxdesc: String = std::iter::repeat('a').take(env.page_size - 1).collect();
        let res = add_user_key(&mut store, Some(&env), &keyring, &maxdesc, "payload".as_bytes());
        if fits {
            assert!(res.is_ok(), "{}", maxbytes);
        } else {
            assert_eq!(
                res.unwrap_err(),
                Error { source: ErrorSource::Caller, kind: ErrorKind::QuotaExceeded },
                "{}",
                maxbytes
            );
        }
    }
}

#[test]
fn overlong_user_description() {
    let mut store = Store::new();
    let env = page_environment(20000);
    let keyring = attach_or_create(&mut store, SpecialKeyring::Process).unwrap();
    let toolarge: String = std::iter::repeat('a').take(env.page_size).collect();
    let err = add_user_key(&mut store, Some(&env), &keyring, &toolarge, "payload".as_bytes())
        .unwrap_err();
    assert_eq!(err.kind.errno(), EINVAL);
    // The quota does not come into it.
    let env = page_environment(0);
    let err = add_user_key(&mut store, Some(&env), &keyring, &toolarge, "payload".as_bytes())
        .unwrap_err();
    assert_eq!(err, Error { source: ErrorSource::Caller, kind: ErrorKind::InvalidArgument });
}

#[test]
fn zero_is_no_keyring() {
    // A keyring with serial zero cannot be named at all.
    let err = KeySerial::new(0).unwrap_err();
    assert_eq!(err.kind.errno(), EINVAL);
    assert_eq!(err.source, ErrorSource::Caller);
    // And a kernel that answers with zero has not answered with a keyring.
    let err = Keyring::attach_reply(Ok(0)).unwrap_err();
    assert_eq!(err, Error { source: ErrorSource::Kernel, kind: ErrorKind::InvalidArgument });
}

#[test]
fn add_key_to_session() {
    let mut store = Store::new();
    let keyring = attach_or_create(&mut store, SpecialKeyring::Session).unwrap();
    let expected = "stuff".as_bytes();
    let key = add_user_key(&mut store, None, &keyring, "wibble", expected).unwrap();
    let payload = Key::<User>::read_reply(store.fetch(&key.read_request())).unwrap();
    assert_eq!(payload, expected);
    let new_expected = "lizard".as_bytes();
    let request = key.update_request(None, new_expected).unwrap();
    completed(store.perform(&request)).unwrap();
    let new_payload = Key::<User>::read_reply(store.fetch(&key.read_request())).unwrap();
    assert_eq!(new_payload, new_expected);
    completed(store.perform(&keyring.unlink_key_request(&key))).unwrap();
}

#[test]
fn add_encrypted_key_to_session() {
    let mut store = Store::new();
    let keyring = attach_or_create(&mut store, SpecialKeyring::Session).unwrap();
    let master_key = add_user_key(&mut store, None, &keyring, "foo", "bar".as_bytes()).unwrap();
    let new_payload = Payload::New {
        format: Some(Format::default()),
        keytype: MasterKeyType::User,
        description: "foo".to_string(),
        keylen: 32,
    };

    let enc_key = add_encrypted_key(&mut store, &keyring, "baz", &new_payload).unwrap();

    // A normal payload update fails
    assert_eq!(
        update_encrypted(&mut store, &enc_key, "qux".as_bytes()).map_err(|e| e.kind.errno()),
        Err(EINVAL)
    );

    completed(store.perform(&keyring.unlink_key_request(&enc_key))).unwrap();
    completed(store.perform(&keyring.unlink_key_request(&master_key))).unwrap();
}

#[test]
fn update_encrypted_key_in_session() {
    let mut store = Store::new();
    let keyring = attach_or_create(&mut store, SpecialKeyring::Session).unwrap();
    let old_master_key = add_user_key(&mut store, None, &keyring, "foo", "bar".as_bytes()).unwrap();
    let new_master_key = add_user_key(&mut store, None, &keyring, "bar", "foo".as_bytes()).unwrap();
    let new_payload = Payload::New {
        format: Some(Format::default()),
        keytype: MasterKeyType::User,
        description: "foo".to_string(),
        keylen: 32,
    };

    let enc_key = add_encrypted_key(&mut store, &keyring, "baz", &new_payload).unwrap();

    // A normal payload update fails
    assert_eq!(
        update_encrypted(&mut store, &enc_key, "qux".as_bytes()).map_err(|e| e.kind.errno()),
        Err(EINVAL)
    );

    let update_payload = Payload::Update {
        keytype: MasterKeyType::User,
        description: "bar".to_string(),
    };
    update_encrypted(&mut store, &enc_key, &update_payload.command().unwrap()).unwrap();
    let request = enc_key.update_request(None, &update_payload).unwrap();
    completed(store.perform(&request)).unwrap();

    completed(store.perform(&keyring.unlink_key_request(&enc_key))).unwrap();
    completed(store.perform(&keyring.unlink_key_request(&old_master_key))).unwrap();
    completed(store.perform(&keyring.unlink_key_request(&new_master_key))).unwrap();
}

#[test]
fn load_encrypted_blob_is_sent_whole() {
    let mut store = Store::new();
    let keyring = attach_or_create(&mut store, SpecialKeyring::Session).unwrap();
    let master_key = add_user_key(&mut store, None, &keyring, "foo", "bar".as_bytes()).unwrap();
    let new_payload = Payload::New {
        format: Some(Format::default()),
        keytype: MasterKeyType::User,
        description: "foo".to_string(),
        keylen: 32,
    };
    let enc_key = add_encrypted_key(&mut store, &keyring, "baz", &new_payload).unwrap();
    let buf = Key::<Encrypted>::read_reply(store.fetch(&enc_key.read_request())).unwrap();
    assert_eq!(buf, b"default user:foo 32 00112233445566778899aabbccddeeff".to_vec());

    let load_payload = Payload::Load { blob: buf.clone() };
    completed(store.perform(&keyring.unlink_key_request(&enc_key))).unwrap();

    let request = keyring.add_key_request::<Encrypted>(None, "qux", &load_payload).unwrap();
    match &request {
        Request::AddKey { kind, description, payload, keyring: into } => {
            assert_eq!(*kind, KeyKind::Encrypted);
            assert_eq!(description, b"qux");
            assert_eq!(payload.len(), buf.len() + 5);
            assert_eq!(&payload[..5], b"load ");
            assert_eq!(&payload[5..], &buf[..]);
            assert_eq!(*into, keyring.serial());
        },
        other => panic!("not an add: {:?}", other),
    }
    let load_key = Keyring::key_reply::<Encrypted>(store.perform(&request)).unwrap();
    let again = Key::<Encrypted>::read_reply(store.fetch(&load_key.read_request())).unwrap();
    assert_eq!(again, buf);

    completed(store.perform(&keyring.unlink_key_request(&load_key))).unwrap();
    completed(store.perform(&keyring.unlink_key_request(&master_key))).unwrap();
}

#[test]
fn attach_twice_yields_the_same_keyring() {
    let all = [
        SpecialKeyring::Thread,
        SpecialKeyring::Process,
        SpecialKeyring::Session,
        SpecialKeyring::User,
        SpecialKeyring::UserSession,
        SpecialKeyring::Group,
        SpecialKeyring::RequestKeyAuthKey,
    ];
    for special in all {
        assert_eq!(
            Keyring::attach_or_create_request(special),
            Keyring::attach_or_create_request(special)
        );
        assert_eq!(
            Keyring::attach_or_create_request(special),
            Request::GetKeyringId { id: special.serial(), create: true }
        );
        assert_eq!(
            Keyring::attach_request(special),
            Request::GetKeyringId { id: special.serial(), create: false }
        );
    }
    let mut store = Store::new();
    let first = attach_or_create(&mut store, SpecialKeyring::Session).unwrap();
    let second = attach_or_create(&mut store, SpecialKeyring::Session).unwrap();
    assert_eq!(first.serial(), second.serial());
    assert_eq!(first, second);
    let other = attach_or_create(&mut store, SpecialKeyring::Process).unwrap();
    assert_ne!(first, other);
}

#[test]
fn unlinking_the_last_link_is_no_error() {
    let mut store = Store::new();
    let keyring = attach_or_create(&mut store, SpecialKeyring::Session).unwrap();
    let key = add_user_key(&mut store, None, &keyring, "only", "one".as_bytes()).unwrap();
    let request = keyring.unlink_key_request(&key);
    assert_eq!(request, Request::Unlink { key: key.serial(), keyring: keyring.serial() });
    assert_eq!(completed(store.perform(&request)), Ok(()));
    // Whatever the kernel returns on success, it is success.
    assert_eq!(completed(Ok(0)), Ok(()));
    assert_eq!(completed(Ok(7)), Ok(()));
    assert_eq!(
        completed(Err(ENOKEY)),
        Err(Error { source: ErrorSource::Kernel, kind: ErrorKind::KeyNotFound })
    );
}
