//! The client's saved state: the decisions around loading and saving it.
//! The file itself is read and written by the caller.
use vstd::prelude::*;

use crate::models::AppStatePayload;
use crate::text::{is_blank, is_blank_str};

verus! {

/// `s` has the shape of a UUID in hyphenated lower-case form: 36
/// characters, `-` at positions 8, 13, 18 and 23, hexadecimal digits
/// `0-9a-f` elsewhere.
pub open spec fn uuid_text_shape(s: Seq<char>) -> bool {
    &&& s.len() == 36
    &&& forall|i: int|
        0 <= i < 36 ==> if i == 8 || i == 13 || i == 18 || i == 23 {
            #[trigger] s[i] == '-'
        } else {
            ('0' <= s[i] <= '9') || ('a' <= s[i] <= 'f')
        }
}

/// A hexadecimal digit, lower case, for `0 <= n < 16`.
pub open spec fn hex_char(n: int) -> char {
    if n < 10 {
        (48 + n) as char
    } else {
        (87 + n) as char
    }
}

/// The two hexadecimal digits of a byte.
pub open spec fn hex_of(b: u8) -> Seq<char> {
    seq![hex_char(b as int / 16), hex_char(b as int % 16)]
}

/// The hexadecimal digits of some bytes, in order.
pub open spec fn hex_bytes(b: Seq<u8>) -> Seq<char>
    decreases b.len(),
{
    if b.len() == 0 {
        Seq::empty()
    } else {
        hex_bytes(b.drop_last()) + hex_of(b.last())
    }
}

/// Sixteen random bytes marked as a version 4, RFC 4122 variant UUID: the
/// high nibble of byte 6 becomes 4, the two high bits of byte 8 become
/// `10`.
pub open spec fn v4_bytes(b: Seq<u8>) -> Seq<u8> {
    b.update(6, ((b[6] & 0x0f) | 0x40) as u8).update(8, ((b[8] & 0x3f) | 0x80) as u8)
}

/// A UUID's hyphenated lower-case text: its bytes in hexadecimal, in
/// groups of 4, 2, 2, 2 and 6 bytes.
pub open spec fn hyphenated_uuid(b: Seq<u8>) -> Seq<char> {
    hex_bytes(b.subrange(0, 4)) + seq!['-'] + hex_bytes(b.subrange(4, 6)) + seq!['-']
        + hex_bytes(b.subrange(6, 8)) + seq!['-'] + hex_bytes(b.subrange(8, 10)) + seq!['-']
        + hex_bytes(b.subrange(10, 16))
}

/// The version 4 UUID made of sixteen random bytes, in its text form
/// (`uuid::Builder::from_random_bytes`, then `into_uuid`, shown with
/// `Display`).  Claimed: the version and variant bits are set as
/// `Builder::with_version` and `Builder::with_variant` set them, and the
/// text is the hyphenated lower-case form.
#[verifier::external_body]
fn uuid_v4_text(random_bytes: [u8; 16]) -> (r: String)
    ensures
        r@ == hyphenated_uuid(v4_bytes(random_bytes@)),
{
    uuid::Builder::from_random_bytes(random_bytes).into_uuid().to_string()
}

proof fn lemma_hex_bytes(b: Seq<u8>)
    ensures
        hex_bytes(b).len() == 2 * b.len(),
        forall|i: int|
            0 <= i < hex_bytes(b).len() ==> ('0' <= #[trigger] hex_bytes(b)[i] <= '9') || (
            'a' <= hex_bytes(b)[i] <= 'f'),
    decreases b.len(),
{
    if b.len() > 0 {
        lemma_hex_bytes(b.drop_last());
        let h = hex_bytes(b.drop_last());
        let x = b.last();
        assert(0 <= x as int / 16 < 16);
        assert(0 <= x as int % 16 < 16);
        assert forall|i: int| 0 <= i < hex_bytes(b).len() implies ('0' <= #[trigger] hex_bytes(b)[i]
            <= '9') || ('a' <= hex_bytes(b)[i] <= 'f') by {
            if i < h.len() {
                assert(hex_bytes(b)[i] == h[i]);
            } else {
                assert(hex_bytes(b)[i] == hex_of(x)[i - h.len()]);
            }
        }
    }
}

/// Every hyphenated UUID text has the UUID shape.
proof fn lemma_hyphenated_shape(b: Seq<u8>)
    requires
        b.len() == 16,
    ensures
        uuid_text_shape(hyphenated_uuid(b)),
{
    let p0 = hex_bytes(b.subrange(0, 4));
    let p1 = hex_bytes(b.subrange(4, 6));
    let p2 = hex_bytes(b.subrange(6, 8));
    let p3 = hex_bytes(b.subrange(8, 10));
    let p4 = hex_bytes(b.subrange(10, 16));
    lemma_hex_bytes(b.subrange(0, 4));
    lemma_hex_bytes(b.subrange(4, 6));
    lemma_hex_bytes(b.subrange(6, 8));
    lemma_hex_bytes(b.subrange(8, 10));
    lemma_hex_bytes(b.subrange(10, 16));
    let d = seq!['-'];
    let s = hyphenated_uuid(b);
    assert(s == p0 + d + p1 + d + p2 + d + p3 + d + p4);
    assert(s.len() == 36);
    assert forall|i: int| 0 <= i < 36 implies if i == 8 || i == 13 || i == 18 || i == 23 {
        #[trigger] s[i] == '-'
    } else {
        ('0' <= s[i] <= '9') || ('a' <= s[i] <= 'f')
    } by {
        if i < 8 {
            assert(s[i] == p0[i]);
        } else if i == 8 {
        } else if i < 13 {
            assert(s[i] == p1[i - 9]);
        } else if i == 13 {
        } else if i < 18 {
            assert(s[i] == p2[i - 14]);
        } else if i == 18 {
        } else if i < 23 {
            assert(s[i] == p3[i - 19]);
        } else if i == 23 {
        } else {
            assert(s[i] == p4[i - 24]);
        }
    }
}

/// The device key made of sixteen random bytes: `wwd-` and the version 4
/// UUID of those bytes.
pub open spec fn device_key_for(random_bytes: Seq<u8>) -> Seq<char> {
    "wwd-"@ + hyphenated_uuid(v4_bytes(random_bytes))
}

/// A key is a generated device key: `wwd-` and a UUID.
pub open spec fn is_generated_key(k: Seq<char>) -> bool {
    &&& k.len() == 40
    &&& k.subrange(0, 4) == "wwd-"@
    &&& uuid_text_shape(k.subrange(4, 40))
}

/// A new device key: `wwd-` and the version 4 UUID of sixteen random
/// bytes that the caller draws.
pub fn new_device_key(random_bytes: [u8; 16]) -> (r: String)
    ensures
        r@ == device_key_for(random_bytes@),
        is_generated_key(r@),
        !is_blank(r@),
{
    let mut key = "wwd-".to_owned();
    let id = uuid_v4_text(random_bytes);
    let ghost u = id@;
    proof {
        lemma_hyphenated_shape(v4_bytes(random_bytes@));
    }
    key.append(id.as_str());
    proof {
        reveal_strlit("wwd-");
        assert(key@.subrange(0, 4) =~= "wwd-"@);
        assert(key@.subrange(4, 40) =~= u);
        assert(!crate::text::is_ws(key@[0]));
    }
    key
}

/// Gives the settings a device key when theirs is blank; the answer says
/// whether it did.
pub fn ensure_generated_hash_key(payload: &mut AppStatePayload, random_bytes: [u8; 16]) -> (changed: bool)
    ensures
        changed == is_blank(old(payload).config.generated_hash_key@),
        changed ==> final(payload).config.generated_hash_key@ == device_key_for(random_bytes@),
        !is_blank(final(payload).config.generated_hash_key@),
        !changed ==> *final(payload) == *old(payload),
        changed ==> is_generated_key(final(payload).config.generated_hash_key@) && *final(payload)
            == (AppStatePayload {
            config: crate::models::ClientConfig {
                generated_hash_key: final(payload).config.generated_hash_key,
                ..old(payload).config
            },
            ..*old(payload)
        }),
{
    if is_blank_str(payload.config.generated_hash_key.as_str()) {
        payload.config.generated_hash_key = new_device_key(random_bytes);
        return true;
    }
    false
}

/// What reading the state file gave.
#[derive(Debug)]
pub enum StateFileRead {
    /// There is no state file yet.
    NotFound,
    /// The file could not be read, for this reason.
    Failed(String),
    /// The file's text.
    Content(String),
}

/// The state as loaded, and what the caller must do with the file.
#[derive(Debug)]
pub struct LoadedState {
    pub payload: AppStatePayload,
    /// The file did not parse: keep a copy of it aside.
    pub backup_corrupt_file: bool,
    /// The state changed while loading (a device key was added): save it.
    pub needs_save: bool,
}

/// What loading gives for what reading the state file gave (`read`), the
/// file's text parsed as the state (`parsed`) and the random bytes of a
/// new device key.
pub open spec fn load_outcome_ok(
    r: Result<LoadedState, String>,
    read: StateFileRead,
    parsed: Option<AppStatePayload>,
    random_bytes: Seq<u8>,
) -> bool {
    &&& (read is Failed) <==> r is Err
    &&& read is Failed ==> r->Err_0@ == "读取状态文件失败："@ + read->Failed_0@
    &&& r is Ok ==> {
        let l = r->Ok_0;
        let base_is_parsed = read is Content && !is_blank(read->Content_0@) && parsed is Some;
        &&& l.backup_corrupt_file == (read is Content && !is_blank(read->Content_0@) && parsed is None)
        &&& !is_blank(l.payload.config.generated_hash_key@)
        &&& l.needs_save ==> l.payload.config.generated_hash_key@ == device_key_for(random_bytes)
        &&& base_is_parsed && !is_blank(parsed->Some_0.config.generated_hash_key@) ==> (l.payload
            == parsed->Some_0 && !l.needs_save)
        &&& base_is_parsed && is_blank(parsed->Some_0.config.generated_hash_key@) ==> (l.needs_save
            && l.payload == (AppStatePayload {
            config: crate::models::ClientConfig {
                generated_hash_key: l.payload.config.generated_hash_key,
                ..parsed->Some_0.config
            },
            ..parsed->Some_0
        }))
        &&& !base_is_parsed ==> l.needs_save && is_generated_key(l.payload.config.generated_hash_key@)
            && l.payload.config.is_default_except_key() && !l.payload.onboarding_dismissed
            && l.payload.recent_presets@.len() == 0
    }
}

/// What is written for `payload`: the same state with a device key, made
/// of `random_bytes` when it had none.
pub open spec fn prepared_for_save(r: AppStatePayload, payload: AppStatePayload, random_bytes: Seq<u8>) -> bool {
    &&& !is_blank(r.config.generated_hash_key@)
    &&& is_blank(payload.config.generated_hash_key@) ==> r == (AppStatePayload {
        config: crate::models::ClientConfig {
            generated_hash_key: r.config.generated_hash_key,
            ..payload.config
        },
        ..payload
    }) && r.config.generated_hash_key@ == device_key_for(random_bytes)
    &&& !is_blank(payload.config.generated_hash_key@) ==> r == payload
}

/// The state for what the file held: `parsed` is the file's text parsed
/// as the state, when it parses.  A missing, blank or unreadable-as-state
/// file gives the defaults; a read error is an error.  A state without a
/// device key gets one, made of `random_bytes`, and must then be saved.
pub fn load_app_state_from(
    read: StateFileRead,
    parsed: Option<AppStatePayload>,
    random_bytes: [u8; 16],
) -> (r: Result<
    LoadedState,
    String,
>)
    ensures
        load_outcome_ok(r, read, parsed, random_bytes@),
{
    let (mut payload, backup) = match read {
        StateFileRead::NotFound => (AppStatePayload::default(), false),
        StateFileRead::Failed(error) => {
            let mut msg = "读取状态文件失败：".to_owned();
            msg.append(error.as_str());
            proof {
                reveal_strlit("读取状态文件失败：");
            }
            return Err(msg);
        },
        StateFileRead::Content(content) => {
            if is_blank_str(content.as_str()) {
                (AppStatePayload::default(), false)
            } else {
                match parsed {
                    Some(p) => (p, false),
                    None => (AppStatePayload::default(), true),
                }
            }
        },
    };
    let needs_save = ensure_generated_hash_key(&mut payload, random_bytes);
    Ok(LoadedState { payload, backup_corrupt_file: backup, needs_save })
}

/// The state as it is written: with a device key, made of `random_bytes`
/// when it had none.
pub fn prepare_app_state_for_save(payload: AppStatePayload, random_bytes: [u8; 16]) -> (r: AppStatePayload)
    ensures
        prepared_for_save(r, payload, random_bytes@),
{
    let mut p = payload;
    let _ = ensure_generated_hash_key(&mut p, random_bytes);
    p
}

} // verus!
