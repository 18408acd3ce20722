//! Password encryption (AES-256 through `magic_crypt`) and reading the
//! bearer token out of an `Authorization` header.
use magic_crypt::{MagicCrypt256, MagicCryptError, MagicCryptTrait};
use vstd::prelude::*;
use crate::interface::global::byte_len;

verus! {

/// What `encrypt_str_to_base64` of a `MagicCrypt256` built from `key` (with no IV)
/// returns for `plain`.
pub uninterp spec fn aes256_encrypt_base64(key: Seq<char>, plain: Seq<char>) -> Seq<char>;

/// What `decrypt_base64_to_string` of a `MagicCrypt256` built from `key` (with no IV)
/// returns for `cipher`: the text, or nothing when it fails.
pub uninterp spec fn aes256_decrypt_base64(key: Seq<char>, cipher: Seq<char>) -> Option<Seq<char>>;

/// A character of the standard base64 alphabet.
pub open spec fn is_base64_char(c: char) -> bool {
    ('A' <= c && c <= 'Z') || ('a' <= c && c <= 'z') || ('0' <= c && c <= '9') || c == '+' || c == '/'
}

/// Padded standard base64 text: whole groups of four characters from the
/// alphabet, with `=` only as padding in the last two places.
pub open spec fn is_padded_base64(s: Seq<char>) -> bool {
    &&& s.len() % 4 == 0
    &&& forall|i: int| 0 <= i < s.len() ==> is_base64_char(#[trigger] s[i]) || (s[i] == '=' && i >= s.len() - 2)
    &&& s.len() >= 2 && s[s.len() - 2] == '=' ==> s[s.len() - 1] == '='
}

/// The length of the base64 cipher text of a text of `n` UTF-8 bytes: AES-CBC
/// with PKCS#7 padding makes `16 * (n / 16 + 1)` bytes, and base64 writes four
/// characters for every three bytes begun.
pub open spec fn cipher_text_len(n: nat) -> nat {
    4 * ((16 * (n / 16 + 1) + 2) / 3)
}

#[verifier::external_type_specification]
#[verifier::external_body]
pub struct ExMagicCryptError(MagicCryptError);

/// Calls `encrypt_str_to_base64` on `MagicCrypt256::new(key, None)`, which is what
/// `new_magic_crypt!(key, 256)` builds. Trusted: the result is the value named by
/// `aes256_encrypt_base64` (the key is hashed with SHA-256, the IV is zero, so the
/// cipher text depends on the key and the text alone); it is padded standard
/// base64 (`base64::engine::general_purpose::STANDARD`) of the
/// `get_aes_cipher_len` bytes that AES-CBC with PKCS#7 padding produces.
#[verifier::external_body]
fn encrypt_str_to_base64(key: &str, plain: &str) -> (res: String)
    ensures
        res@ == aes256_encrypt_base64(key@, plain@),
        is_padded_base64(res@),
        res@.len() == cipher_text_len(byte_len(plain@)),
{
    <MagicCrypt256 as MagicCryptTrait>::new(key, None::<String>).encrypt_str_to_base64(plain)
}

/// Calls `decrypt_base64_to_string` on `MagicCrypt256::new(key, None)`. Trusted: the
/// result is the value named by `aes256_decrypt_base64`, and decrypting what
/// `encrypt_str_to_base64` made with the same key gives the text back (AES-CBC with
/// PKCS#7 padding and base64 both invert exactly, as the crate's example shows).
#[verifier::external_body]
fn decrypt_base64_to_string(key: &str, cipher: &str) -> (res: Result<String, MagicCryptError>)
    ensures
        res.is_ok() == aes256_decrypt_base64(key@, cipher@).is_some(),
        res.is_ok() ==> aes256_decrypt_base64(key@, cipher@) == Some(res->Ok_0@),
        forall|plain: Seq<char>|
            #[trigger] aes256_encrypt_base64(key@, plain) == cipher@ ==> res.is_ok() && res->Ok_0@ == plain,
{
    <MagicCrypt256 as MagicCryptTrait>::new(key, None::<String>).decrypt_base64_to_string(cipher)
}

/// A password in plain text, to be stored encrypted.
pub struct Auth {
    pub plain: String,
}

impl Auth {
    /// The password encrypted with the server's private key, in base64.
    pub fn encrypt(&self, private_key: &str) -> (res: String)
        ensures
            res@ == aes256_encrypt_base64(private_key@, self.plain@),
            is_padded_base64(res@),
            res@.len() == cipher_text_len(byte_len(self.plain@)),
    {
        encrypt_str_to_base64(private_key, self.plain.as_str())
    }
}

/// How a password given at login compares with the stored cipher text.
#[derive(Debug, Clone, Copy, PartialEq, Eq, Structural)]
pub enum PasswordCheck {
    Matches,
    Differs,
    /// The stored text does not decrypt with the key.
    Unreadable,
}

/// The outcome of comparing `given` with the password stored as `stored`.
pub open spec fn password_check(key: Seq<char>, stored: Seq<char>, given: Seq<char>) -> PasswordCheck {
    match aes256_decrypt_base64(key, stored) {
        None => PasswordCheck::Unreadable,
        Some(plain) => if plain == given {
            PasswordCheck::Matches
        } else {
            PasswordCheck::Differs
        },
    }
}

/// Decrypts the stored password and compares it with the given one. A password
/// stored by `Auth::encrypt` with the same key matches exactly its own text.
pub fn check_password(private_key: &str, stored: &str, given: &str) -> (res: PasswordCheck)
    ensures
        res == password_check(private_key@, stored@, given@),
        forall|plain: Seq<char>|
            #[trigger] aes256_encrypt_base64(private_key@, plain) == stored@ ==> res == (if plain == given@ {
                PasswordCheck::Matches
            } else {
                PasswordCheck::Differs
            }),
{
    match decrypt_base64_to_string(private_key, stored) {
        Ok(plain) => {
            if plain == given.to_owned() {
                PasswordCheck::Matches
            } else {
                PasswordCheck::Differs
            }
        },
        Err(_) => PasswordCheck::Unreadable,
    }
}

/// The pieces of `s` between single spaces, as `str::split(" ")` yields them
/// (two spaces in a row give an empty piece; there is always at least one piece).
pub open spec fn split_spaces(s: Seq<char>) -> Seq<Seq<char>>
    decreases s.len(),
{
    if s.len() == 0 {
        seq![Seq::<char>::empty()]
    } else {
        let rest = split_spaces(s.drop_first());
        if s[0] == ' ' {
            seq![Seq::<char>::empty()] + rest
        } else {
            rest.update(0, seq![s[0]] + rest[0])
        }
    }
}

proof fn lemma_split_nonempty(s: Seq<char>)
    ensures
        split_spaces(s).len() >= 1,
    decreases s.len(),
{
    if s.len() > 0 {
        lemma_split_nonempty(s.drop_first());
    }
}

/// Pieces of text joined back with a single space between each two.
pub open spec fn join_spaces(parts: Seq<Seq<char>>) -> Seq<char>
    decreases parts.len(),
{
    if parts.len() == 0 {
        Seq::empty()
    } else if parts.len() == 1 {
        parts[0]
    } else {
        parts[0] + seq![' '] + join_spaces(parts.drop_first())
    }
}

/// Splitting at spaces loses nothing and keeps no space: there is at least one
/// piece, no piece holds a space, and joining the pieces with single spaces
/// gives the text back. (These three facts fix the pieces of every text.)
pub proof fn split_spaces_laws(s: Seq<char>)
    ensures
        split_spaces(s).len() >= 1,
        join_spaces(split_spaces(s)) == s,
        forall|i: int, j: int|
            0 <= i < split_spaces(s).len() && 0 <= j < split_spaces(s)[i].len() ==> #[trigger] split_spaces(s)[i][j]
                != ' ',
    decreases s.len(),
{
    if s.len() > 0 {
        let t = s.drop_first();
        split_spaces_laws(t);
        let rest = split_spaces(t);
        if s[0] == ' ' {
            let parts = seq![Seq::<char>::empty()] + rest;
            assert(parts.drop_first() =~= rest);
            assert(join_spaces(parts) == parts[0] + seq![' '] + join_spaces(rest));
            assert(s =~= Seq::<char>::empty() + seq![' '] + t);
            assert forall|i: int, j: int| 0 <= i < parts.len() && 0 <= j < parts[i].len() implies #[trigger] parts[i][j]
                != ' ' by {
                assert(parts[i] == rest[i - 1]);
            }
        } else {
            let parts = rest.update(0, seq![s[0]] + rest[0]);
            if rest.len() == 1 {
                assert(s =~= seq![s[0]] + t);
            } else {
                assert(parts.drop_first() =~= rest.drop_first());
                assert(join_spaces(rest) == rest[0] + seq![' '] + join_spaces(rest.drop_first()));
                assert(s =~= seq![s[0]] + t);
                assert(join_spaces(parts) == parts[0] + seq![' '] + join_spaces(parts.drop_first()));
                assert(join_spaces(parts) =~= seq![s[0]] + (rest[0] + seq![' '] + join_spaces(rest.drop_first())));
            }
            assert forall|i: int, j: int| 0 <= i < parts.len() && 0 <= j < parts[i].len() implies #[trigger] parts[i][j]
                != ' ' by {
                if i == 0 && j > 0 {
                    assert(parts[0][j] == rest[0][j - 1]);
                }
            }
        }
    }
}

/// When `i` is where the first space of `s` stands (or its length, when it has
/// none), the first piece is what comes before it and the others are the pieces
/// of what comes after it.
proof fn lemma_split_first(s: Seq<char>, i: int)
    requires
        0 <= i <= s.len(),
        forall|j: int| 0 <= j < i ==> s[j] != ' ',
        i == s.len() || s[i] == ' ',
    ensures
        split_spaces(s)[0] == s.take(i),
        i == s.len() ==> split_spaces(s).len() == 1,
        i < s.len() ==> split_spaces(s) == seq![s.take(i)] + split_spaces(s.skip(i + 1)),
    decreases i,
{
    lemma_split_nonempty(s);
    if i == 0 {
        if s.len() == 0 {
            assert(s.take(0) =~= Seq::<char>::empty());
        } else {
            assert(s.take(0) =~= Seq::<char>::empty());
            assert(s.skip(1) =~= s.drop_first());
        }
    } else {
        let t = s.drop_first();
        assert forall|j: int| 0 <= j < i - 1 implies t[j] != ' ' by {
            assert(t[j] == s[j + 1]);
        }
        lemma_split_first(t, i - 1);
        lemma_split_nonempty(t);
        assert(seq![s[0]] + t.take(i - 1) =~= s.take(i));
        if i < s.len() {
            assert(t.skip(i) =~= s.skip(i + 1));
            assert(split_spaces(s) =~= seq![s.take(i)] + split_spaces(s.skip(i + 1)));
        }
    }
}

/// Where the first space at or after `from` stands in `s`, or its length.
fn next_space(s: &str, from: usize, len: usize) -> (res: usize)
    requires
        len == s@.len(),
        from <= len,
    ensures
        from <= res <= len,
        forall|j: int| from <= j < res ==> s@[j] != ' ',
        res == len || s@[res as int] == ' ',
{
    let mut i = from;
    while i < len
        invariant
            from <= i <= len,
            len == s@.len(),
            forall|j: int| from <= j < i ==> s@[j] != ' ',
        decreases len - i,
    {
        if s.get_char(i) == ' ' {
            return i;
        }
        i = i + 1;
    }
    i
}

/// The second space-separated word of an `Authorization` header (the token of
/// `Bearer <token>`), when the header has one.
pub fn token_from_header(header: &str) -> (res: Option<String>)
    ensures
        match res {
            Some(token) => split_spaces(header@).len() >= 2 && token@ == split_spaces(header@)[1],
            None => split_spaces(header@).len() < 2,
        },
{
    let len = header.unicode_len();
    let i = next_space(header, 0, len);
    proof {
        lemma_split_first(header@, i as int);
    }
    if i == len {
        return None;
    }
    let j = next_space(header, i + 1, len);
    proof {
        let rest = header@.skip(i + 1);
        assert forall|k: int| 0 <= k < j - i - 1 implies rest[k] != ' ' by {
            assert(rest[k] == header@[k + i + 1]);
        }
        lemma_split_first(rest, j - i - 1);
        assert(rest.take(j - i - 1) =~= header@.subrange(i + 1, j as int));
    }
    let token = header.substring_char(i + 1, j);
    Some(token.to_owned())
}

} // verus!
