use coop::ids::Key32;
use coop::keys::{secret_key_from_ncryptsec, secret_key_from_text, to_public_key, DecryptError};
use coop::login::{
    bunker_login, clean_bunker_uri, connection_credentials, startup_login, StartupLogin, countdown_steps, key_credentials, key_login,
    login_input, login_secret, login_with_password, verify_password, KeyLoginStep, LoginError,
    LoginForm, LoginInput, LoginStep, PasswordLoginError,
};
use nostr_sdk::prelude::{EncryptedSecretKey, KeySecurity, Nip19Profile, RelayUrl, SecretKey, ToBech32};

const NPUB: &str = "npub10elfcs4fr0l0r8af98jlmgdh9c8tcxjvz9qkw038js35mp4dma8qzvjptg";
const PUB_HEX: &str = "7e7e9c42a91bfef19fa929e5fda1b72e0ebc1a4c1141673e2794234d86addf4e";
const NSEC: &str = "nsec1vl029mgpspedva04g90vltkh6fvh240zqtv9k0t9af8935ke9laqsnlfe5";
const SEC_HEX: &str = "67dea2ed018072d675f5415ecfaed7d2597555e202d85b3d65ea4e58d2d92ffa";

fn hex_bytes(s: &str) -> [u8; 32] {
    let mut out = [0u8; 32];
    for i in 0..32 {
        out[i] = u8::from_str_radix(&s[2 * i..2 * i + 2], 16).unwrap();
    }
    out
}

fn ncryptsec(password: &str) -> String {
    let sk = SecretKey::from_hex(SEC_HEX).unwrap();
    let enc = EncryptedSecretKey::new(&sk, password, 1, KeySecurity::Medium).unwrap();
    enc.to_bech32().unwrap()
}

#[test]
fn public_keys_in_every_form() {
    let expected = hex_bytes(PUB_HEX);
    assert_eq!(to_public_key(NPUB).unwrap().bytes, expected);
    assert_eq!(to_public_key(PUB_HEX).unwrap().bytes, expected);
    assert_eq!(to_public_key(&format!("nostr:{NPUB}")).unwrap().bytes, expected);
    let pk = nostr_sdk::prelude::PublicKey::from_hex(PUB_HEX).unwrap();
    let profile = Nip19Profile::new(pk, [RelayUrl::parse("wss://relay.damus.io").unwrap()]);
    let nprofile = profile.to_bech32().unwrap();
    assert!(nprofile.starts_with("nprofile1"));
    assert_eq!(to_public_key(&nprofile).unwrap().bytes, expected);
    assert!(to_public_key("npub1invalid").is_none());
    assert!(to_public_key("alice@example.com").is_none());
    assert!(to_public_key("").is_none());
}

#[test]
fn secret_keys_from_text() {
    let expected = hex_bytes(SEC_HEX);
    assert_eq!(secret_key_from_text(NSEC).unwrap().bytes, expected);
    assert_eq!(secret_key_from_text(SEC_HEX).unwrap().bytes, expected);
    assert!(secret_key_from_text("nsec1nothing").is_none());
}

#[test]
fn encrypted_secret_keys() {
    let enc = ncryptsec("correct horse");
    assert_eq!(secret_key_from_ncryptsec(&enc, "correct horse").unwrap().bytes, hex_bytes(SEC_HEX));
    assert_eq!(secret_key_from_ncryptsec(&enc, "wrong").unwrap_err(), DecryptError::Password);
    assert_eq!(secret_key_from_ncryptsec("ncryptsec1bad", "x").unwrap_err(), DecryptError::Format);
}

#[test]
fn password_login_errors() {
    let enc = ncryptsec("pw");
    assert_eq!(login_with_password(&enc, "").unwrap_err(), PasswordLoginError::PasswordRequired);
    assert_eq!(login_with_password("", "").unwrap_err(), PasswordLoginError::PasswordRequired);
    assert_eq!(login_with_password("garbage", "pw").unwrap_err(), PasswordLoginError::SecretKeyInvalid);
    assert_eq!(login_with_password(&enc, "nope").unwrap_err(), PasswordLoginError::InvalidPassword);
    assert_eq!(login_with_password(&enc, "pw").unwrap().bytes, hex_bytes(SEC_HEX));
}

#[test]
fn login_secret_by_kind() {
    let expected = hex_bytes(SEC_HEX);
    assert_eq!(login_secret(NSEC, "").unwrap().bytes, expected);
    assert_eq!(login_secret(&ncryptsec("pw"), "pw").unwrap().bytes, expected);
    assert!(login_secret(&ncryptsec("pw"), "px").is_none());
    assert!(login_secret(SEC_HEX, "").is_none());
}

#[test]
fn login_input_kinds() {
    assert_eq!(login_input(NSEC), LoginInput::Secret);
    assert_eq!(login_input("ncryptsec1xyz"), LoginInput::EncryptedSecret);
    assert_eq!(login_input("bunker://abc"), LoginInput::Bunker);
    assert_eq!(login_input("npub1xyz"), LoginInput::Invalid);
}

#[test]
fn login_form_steps() {
    let mut form = LoginForm::new();
    assert_eq!(form.login("hello"), LoginStep::Failed(LoginError::InvalidKey));
    assert!(!form.logging_in);
    assert_eq!(form.error, Some(LoginError::InvalidKey));

    let mut form = LoginForm::new();
    assert_eq!(form.login(NSEC), LoginStep::AskPassword { encrypted: false });
    assert!(form.logging_in);
    assert_eq!(form.login("bunker://x"), LoginStep::Busy);

    let mut form = LoginForm::new();
    assert_eq!(form.login("ncryptsec1abc"), LoginStep::AskPassword { encrypted: true });
    let mut form = LoginForm::new();
    assert_eq!(form.login("bunker://abc"), LoginStep::ConnectBunker);
    form.set_countdown(Some(3));
    assert_eq!(form.countdown, Some(3));
    form.set_error(LoginError::BunkerInvalid);
    assert_eq!(form.error, Some(LoginError::BunkerInvalid));
    form.clear_error();
    assert_eq!(form.error, None);
}

#[test]
fn password_dialog_checks() {
    assert_eq!(verify_password(None, None, true), Err(LoginError::PasswordRequired));
    assert_eq!(verify_password(Some(""), Some(""), false), Err(LoginError::PasswordRequired));
    assert_eq!(verify_password(Some("pw"), None, true), Ok(()));
    assert_eq!(verify_password(Some("pw"), None, false), Err(LoginError::MustConfirmPassword));
    assert_eq!(verify_password(Some("pw"), Some(""), false), Err(LoginError::MustConfirmPassword));
    assert_eq!(verify_password(Some("pw"), Some("pW"), false), Err(LoginError::PasswordNotMatch));
    assert_eq!(verify_password(Some("pw"), Some("pw"), false), Ok(()));
}

#[test]
fn key_login_order() {
    assert_eq!(key_login(true, NSEC), KeyLoginStep::Busy);
    assert_eq!(key_login(false, "bunker://x"), KeyLoginStep::ConnectBunker);
    assert_eq!(key_login(false, "ncryptsec1x"), KeyLoginStep::DecryptWithPassword);
    assert_eq!(
        key_login(false, NSEC),
        KeyLoginStep::UseSecret(Key32::from_bytes(hex_bytes(SEC_HEX)))
    );
    assert_eq!(key_login(false, "nsec1broken"), KeyLoginStep::Invalid);
    assert_eq!(key_login(false, SEC_HEX), KeyLoginStep::Invalid);
}

#[test]
fn countdown_and_stored_logins() {
    assert_eq!(countdown_steps(3), vec![Some(3), Some(2), Some(1), None]);
    assert_eq!(countdown_steps(0), vec![None]);
    assert_eq!(countdown_steps(200).len(), 201);

    let uri = "bunker://abcd?relay=wss://relay.nsec.app&secret=s3cr3t";
    let clean = clean_bunker_uri(uri, Some("s3cr3t"));
    assert_eq!(clean, "bunker://abcd?relay=wss://relay.nsec.app&secret=");
    assert_eq!(clean_bunker_uri(uri, None), uri);

    let (user, bunker) = connection_credentials(&clean, "apppk", &[1, 2, 3]);
    assert_eq!(user.url, "coop-user");
    assert_eq!(user.username, "bunker");
    assert_eq!(user.password, clean.as_bytes().to_vec());
    assert_eq!(bunker.url, "coop-bunker");
    assert_eq!(bunker.username, "apppk");
    assert_eq!(bunker.password, vec![1, 2, 3]);

    let k = key_credentials(PUB_HEX, SEC_HEX);
    assert_eq!(k.url, "coop-user");
    assert_eq!(k.username, PUB_HEX);
    assert_eq!(k.password, SEC_HEX.as_bytes().to_vec());
}

#[test]
fn bunker_uris() {
    let uri = format!("bunker://{PUB_HEX}?relay=wss://relay.nsec.app&secret=abc");
    assert!(bunker_login(&uri).is_ok());
    assert_eq!(bunker_login("bunker://not-a-key").unwrap_err(), LoginError::BunkerInvalid);
    assert_eq!(bunker_login("hello").unwrap_err(), LoginError::BunkerInvalid);
    assert!(matches!(startup_login(&uri), StartupLogin::Bunker(_)));
    assert!(matches!(startup_login("bunker://zzz"), StartupLogin::Failed));
    match startup_login(SEC_HEX) {
        StartupLogin::Keys(k) => assert_eq!(k.bytes, hex_bytes(SEC_HEX)),
        other => panic!("unexpected {other:?}"),
    }
    assert!(matches!(startup_login(NSEC), StartupLogin::Keys(_)));
    assert!(matches!(startup_login("nonsense"), StartupLogin::Failed));
}
