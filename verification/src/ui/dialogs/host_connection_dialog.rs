//! The host dialog: the form that creates or edits a stored host, its
//! validation, and its conversion to and from a host configuration.

use vstd::prelude::*;
use vstd::string::*;

use crate::entities::{AuthConfig, HostConfig, HostId};
use crate::ui::components::text_input::bullets;
use crate::text::{decimal, lemma_decimal_parses, owned, parse_u16, parse_u16_spec, push_decimal, to_decimal, trim, trim_is_empty, trim_spec};

verus! {

/// Whether the dialog creates a host or edits one.
#[derive(Debug, Clone, Copy, PartialEq, Eq, Structural)]
pub enum DialogMode {
    Create,
    Edit,
}

/// The authentication choice offered by the form.
#[derive(Debug, Clone, Copy, PartialEq, Eq, Structural)]
pub enum AuthType {
    Password,
    PublicKey,
    Agent,
}

/// The authentication choice that a configuration makes.
pub open spec fn auth_type_of(a: AuthConfig) -> AuthType {
    match a {
        AuthConfig::Password { .. } => AuthType::Password,
        AuthConfig::PublicKey { .. } => AuthType::PublicKey,
        AuthConfig::Agent => AuthType::Agent,
    }
}

impl AuthType {
    /// The label of the choice.
    pub fn display_name(&self) -> (r: &'static str)
        ensures
            r@ == (match *self {
                AuthType::Password => "Password"@,
                AuthType::PublicKey => "Public Key"@,
                AuthType::Agent => "SSH Agent"@,
            }),
    {
        match self {
            AuthType::Password => "Password",
            AuthType::PublicKey => "Public Key",
            AuthType::Agent => "SSH Agent",
        }
    }

    /// The choice that `auth` makes.
    pub fn from_auth_config(auth: &AuthConfig) -> (r: AuthType)
        ensures
            r == auth_type_of(*auth),
    {
        match auth {
            AuthConfig::Password { .. } => AuthType::Password,
            AuthConfig::PublicKey { .. } => AuthType::PublicKey,
            AuthConfig::Agent => AuthType::Agent,
        }
    }
}

/// Whether a field is empty once surrounding whitespace is dropped.
pub open spec fn blank(s: Seq<char>) -> bool {
    trim_spec(s).len() == 0
}

/// The secret store key under which the password of `username@host:port`
/// is kept.
pub open spec fn host_password_key(username: Seq<char>, host: Seq<char>, port: u16) -> Seq<char> {
    "host:"@ + username + "@"@ + host + ":"@ + decimal(port as nat)
}

/// The prefix of a password reference that names a secret store key.
pub open spec fn keychain_prefix() -> Seq<char> {
    "keychain:"@
}

/// The secret store key under which the password of `username@host:port`
/// is kept.
pub fn password_secret_key(username: &str, host: &str, port: u16) -> (r: String)
    ensures
        r@ == host_password_key(username@, host@, port),
{
    let mut s = owned("host:");
    s.append(username);
    s.append("@");
    s.append(host);
    s.append(":");
    push_decimal(&mut s, port as u64);
    proof {
        assert(s@ =~= host_password_key(username@, host@, port));
    }
    s
}

/// The secret store key that a password reference names: what follows
/// `keychain:`, when the reference starts with it.
pub fn keychain_key(password_ref: &str) -> (r: Option<String>)
    ensures
        match r {
            Some(k) => password_ref@ == keychain_prefix() + k@,
            None => !keychain_prefix().is_prefix_of(password_ref@),
        },
{
    let prefix = "keychain:";
    proof {
        reveal_strlit("keychain:");
    }
    let n = password_ref.unicode_len();
    if n < 9 {
        proof {
            assert(!keychain_prefix().is_prefix_of(password_ref@));
        }
        return None;
    }
    let head = password_ref.substring_char(0, 9);
    if !crate::text::str_eq(head, prefix) {
        proof {
            if keychain_prefix().is_prefix_of(password_ref@) {
                assert(head@ =~= keychain_prefix());
            }
        }
        return None;
    }
    let rest = owned(password_ref.substring_char(9, n));
    proof {
        assert(password_ref@ =~= keychain_prefix() + rest@);
    }
    Some(rest)
}

/// Whether `f` is the form that shows `config`, `stored_password` being
/// what the secret store holds under the key that a `keychain:` password
/// reference names.
pub open spec fn shows(config: HostConfig, stored_password: Option<String>, f: FormData) -> bool {
    &&& f.name == config.name
    &&& f.host == config.host
    &&& f.port@ == decimal(config.port as nat)
    &&& f.username == config.username
    &&& f.auth_type == auth_type_of(config.auth_config)
    &&& f.group@ == (match config.group {
        Some(g) => g@,
        None => Seq::<char>::empty(),
    })
    &&& f.description@ == (match config.description {
        Some(d) => d@,
        None => Seq::<char>::empty(),
    })
    &&& match config.auth_config {
        AuthConfig::Password { password_ref } => {
            &&& f.password_ref == password_ref
            &&& f.password_input@ == (if keychain_prefix().is_prefix_of(password_ref@) {
                match stored_password {
                    Some(p) => p@,
                    None => Seq::<char>::empty(),
                }
            } else {
                Seq::<char>::empty()
            })
            &&& f.key_path@.len() == 0
            &&& f.passphrase_ref@.len() == 0
        },
        AuthConfig::PublicKey { key_path, passphrase_ref } => {
            &&& f.password_input@.len() == 0
            &&& f.password_ref@.len() == 0
            &&& f.key_path == key_path
            &&& f.passphrase_ref@ == (match passphrase_ref {
                Some(p) => p@,
                None => Seq::<char>::empty(),
            })
        },
        AuthConfig::Agent => {
            &&& f.password_input@.len() == 0
            &&& f.password_ref@.len() == 0
            &&& f.key_path@.len() == 0
            &&& f.passphrase_ref@.len() == 0
        },
    }
}

/// The text of an optional field.
pub open spec fn opt_text(o: Option<String>) -> Option<Seq<char>> {
    match o {
        Some(s) => Some(s@),
        None => None,
    }
}

/// Whether two configurations hold the same values.
pub open spec fn same_host(a: HostConfig, b: HostConfig) -> bool {
    &&& a.id == b.id
    &&& a.name@ == b.name@
    &&& a.host@ == b.host@
    &&& a.port == b.port
    &&& a.username@ == b.username@
    &&& opt_text(a.group) == opt_text(b.group)
    &&& opt_text(a.description) == opt_text(b.description)
    &&& match (a.auth_config, b.auth_config) {
        (AuthConfig::Password { password_ref: x }, AuthConfig::Password { password_ref: y }) => x@ == y@,
        (
            AuthConfig::PublicKey { key_path: k1, passphrase_ref: p1 },
            AuthConfig::PublicKey { key_path: k2, passphrase_ref: p2 },
        ) => k1@ == k2@ && opt_text(p1) == opt_text(p2),
        (AuthConfig::Agent, AuthConfig::Agent) => true,
        _ => false,
    }
}

/// Editing a host and saving it unchanged gives the same host back: the
/// form that shows a host converts without complaint, to a configuration
/// with the host's values. This holds of every host whose optional texts
/// are absent or not blank, whose key path is not blank, and whose
/// password, if any, is stored, not blank, under the host's own secret key.
pub proof fn law_edit_round_trip(config: HostConfig, stored_password: Option<String>, f: FormData, saved: HostConfig)
    requires
        shows(config, stored_password, f),
        config.group matches Some(g) ==> !blank(g@),
        config.description matches Some(d) ==> !blank(d@),
        config.auth_config matches AuthConfig::Password { password_ref } ==> password_ref@
            == keychain_prefix() + host_password_key(config.username@, config.host@, config.port),
        config.auth_config is Password ==> (stored_password matches Some(p) && !blank(p@)),
        config.auth_config matches AuthConfig::PublicKey { key_path, passphrase_ref } ==> !blank(
            key_path@,
        ) && (passphrase_ref matches Some(p) ==> !blank(p@)),
    ensures
        conversion_error(f) is None,
        converted(f, config.id, saved) ==> same_host(saved, config),
{
    lemma_decimal_parses(config.port);
    match config.auth_config {
        AuthConfig::Password { password_ref } => {
            assert(keychain_prefix().is_prefix_of(password_ref@)) by {
                assert(password_ref@.subrange(0, keychain_prefix().len() as int) =~= keychain_prefix());
            }
        },
        _ => {},
    }
    if converted(f, config.id, saved) {
        assert(saved.port == config.port);
        match config.group {
            Some(g) => {},
            None => {
                assert(blank(f.group@)) by {
                    lemma_blank_empty(f.group@);
                }
            },
        }
        match config.description {
            Some(d) => {},
            None => {
                assert(blank(f.description@)) by {
                    lemma_blank_empty(f.description@);
                }
            },
        }
        match config.auth_config {
            AuthConfig::PublicKey { key_path, passphrase_ref } => {
                if passphrase_ref is None {
                    lemma_blank_empty(f.passphrase_ref@);
                }
            },
            _ => {},
        }
    }
}

proof fn lemma_blank_empty(s: Seq<char>)
    requires
        s.len() == 0,
    ensures
        blank(s),
{
}

/// The fields of the host form, as typed.
#[derive(Debug)]
pub struct FormData {
    pub name: String,
    pub host: String,
    pub port: String,
    pub username: String,
    pub auth_type: AuthType,
    /// The password itself; it goes to the secret store on save.
    pub password_input: String,
    /// The reference of a stored password.
    pub password_ref: String,
    /// The private key file, for public key authentication.
    pub key_path: String,
    /// The passphrase reference, for public key authentication.
    pub passphrase_ref: String,
    pub group: String,
    pub description: String,
}

/// The first complaint of validation about a form, if any.
pub open spec fn form_error(f: FormData) -> Option<Seq<char>> {
    if blank(f.name@) {
        Some("Host name cannot be empty"@)
    } else if blank(f.host@) {
        Some("Host address cannot be empty"@)
    } else if blank(f.username@) {
        Some("Username cannot be empty"@)
    } else if parse_u16_spec(trim_spec(f.port@)) is None {
        Some("Invalid port number"@)
    } else if f.auth_type == AuthType::Password && blank(f.password_input@) {
        Some("Password cannot be empty"@)
    } else if f.auth_type == AuthType::PublicKey && blank(f.key_path@) {
        Some("Key path cannot be empty"@)
    } else {
        None
    }
}

/// The complaint of the conversion to a configuration, if any (the
/// conversion does not look at the name, host and user fields).
pub open spec fn conversion_error(f: FormData) -> Option<Seq<char>> {
    if parse_u16_spec(trim_spec(f.port@)) is None {
        Some("Invalid port number"@)
    } else if f.auth_type == AuthType::Password && blank(f.password_input@) {
        Some("Password cannot be empty"@)
    } else if f.auth_type == AuthType::PublicKey && blank(f.key_path@) {
        Some("Key path cannot be empty"@)
    } else {
        None
    }
}

/// An optional field: absent when blank.
pub open spec fn optional_field(s: String) -> Option<String> {
    if blank(s@) {
        None
    } else {
        Some(s)
    }
}

/// Whether `c` is the configuration that the form `f` describes, under the
/// identifier `id`.
pub open spec fn converted(f: FormData, id: Option<HostId>, c: HostConfig) -> bool {
    &&& c.id == id
    &&& c.name == f.name
    &&& c.host == f.host
    &&& c.username == f.username
    &&& parse_u16_spec(trim_spec(f.port@)) == Some(c.port)
    &&& c.group == optional_field(f.group)
    &&& c.description == optional_field(f.description)
    &&& match f.auth_type {
        AuthType::Password => match c.auth_config {
            AuthConfig::Password { password_ref } => password_ref@ == keychain_prefix()
                + host_password_key(f.username@, f.host@, c.port),
            _ => false,
        },
        AuthType::PublicKey => c.auth_config == (AuthConfig::PublicKey {
            key_path: f.key_path,
            passphrase_ref: optional_field(f.passphrase_ref),
        }),
        AuthType::Agent => c.auth_config == AuthConfig::Agent,
    }
}

fn optional_copy(s: &String) -> (r: Option<String>)
    ensures
        r == optional_field(*s),
{
    if trim_is_empty(s.as_str()) {
        None
    } else {
        Some(s.clone())
    }
}

fn error_text(lit: &str) -> (r: String)
    ensures
        r@ == lit@,
{
    owned(lit)
}

impl FormData {
    /// An empty form on the default SSH port, with password authentication.
    pub fn new() -> (r: FormData)
        ensures
            blank_form(r),
    {
        FormData {
            name: String::new(),
            host: String::new(),
            port: owned("22"),
            username: String::new(),
            auth_type: AuthType::Password,
            password_input: String::new(),
            password_ref: String::new(),
            key_path: String::new(),
            passphrase_ref: String::new(),
            group: String::new(),
            description: String::new(),
        }
    }

    /// Checks the form: `Ok` when `form_error` has nothing to say, else its
    /// complaint.
    pub fn validate(&self) -> (r: Result<(), String>)
        ensures
            match r {
                Ok(()) => form_error(*self) is None,
                Err(e) => form_error(*self) == Some(e@),
            },
    {
        if trim_is_empty(self.name.as_str()) {
            return Err(error_text("Host name cannot be empty"));
        }
        if trim_is_empty(self.host.as_str()) {
            return Err(error_text("Host address cannot be empty"));
        }
        if trim_is_empty(self.username.as_str()) {
            return Err(error_text("Username cannot be empty"));
        }
        let port = trim(self.port.as_str());
        if parse_u16(port.as_str()).is_none() {
            return Err(error_text("Invalid port number"));
        }
        match self.auth_type {
            AuthType::Password => {
                if trim_is_empty(self.password_input.as_str()) {
                    return Err(error_text("Password cannot be empty"));
                }
            },
            AuthType::PublicKey => {
                if trim_is_empty(self.key_path.as_str()) {
                    return Err(error_text("Key path cannot be empty"));
                }
            },
            AuthType::Agent => {},
        }
        Ok(())
    }

    /// The configuration that the form describes, under `original_id`.
    /// A password configuration refers to the secret store key of
    /// `username@host:port`; the password itself is stored by the caller.
    pub fn to_host_config(&self, original_id: Option<HostId>) -> (r: Result<HostConfig, String>)
        ensures
            match r {
                Ok(c) => conversion_error(*self) is None && converted(*self, original_id, c),
                Err(e) => conversion_error(*self) == Some(e@),
            },
    {
        let port_text = trim(self.port.as_str());
        let port = match parse_u16(port_text.as_str()) {
            Some(p) => p,
            None => {
                return Err(error_text("Invalid port number"));
            },
        };
        let auth_config = match self.auth_type {
            AuthType::Password => {
                if trim_is_empty(self.password_input.as_str()) {
                    return Err(error_text("Password cannot be empty"));
                }
                let key = password_secret_key(self.username.as_str(), self.host.as_str(), port);
                let mut password_ref = owned("keychain:");
                password_ref.append(key.as_str());
                proof {
                    reveal_strlit("keychain:");
                }
                AuthConfig::password(password_ref)
            },
            AuthType::PublicKey => {
                if trim_is_empty(self.key_path.as_str()) {
                    return Err(error_text("Key path cannot be empty"));
                }
                let passphrase = optional_copy(&self.passphrase_ref);
                AuthConfig::public_key(self.key_path.clone(), passphrase)
            },
            AuthType::Agent => AuthConfig::agent(),
        };
        let mut config = HostConfig::new(
            self.name.clone(),
            self.host.clone(),
            self.username.clone(),
            auth_config,
        );
        config.id = original_id;
        config.port = port;
        config.group = optional_copy(&self.group);
        config.description = optional_copy(&self.description);
        Ok(config)
    }

    /// The form that shows `config`. `stored_password` is what the secret
    /// store holds under the key that a `keychain:` password reference
    /// names (`None` when it holds nothing or cannot be read); the form
    /// shows it as the password, and shows no password for any other
    /// reference.
    pub fn from_host_config(config: &HostConfig, stored_password: Option<String>) -> (r: FormData)
        ensures
            shows(*config, stored_password, r),
    {
        let auth_type = AuthType::from_auth_config(&config.auth_config);
        let (password_input, password_ref, key_path, passphrase_ref) = match &config.auth_config {
            AuthConfig::Password { password_ref } => {
                let password_input = match keychain_key(password_ref.as_str()) {
                    Some(_) => match stored_password {
                        Some(p) => p,
                        None => String::new(),
                    },
                    None => String::new(),
                };
                (password_input, password_ref.clone(), String::new(), String::new())
            },
            AuthConfig::PublicKey { key_path, passphrase_ref } => {
                let passphrase = match passphrase_ref {
                    Some(p) => p.clone(),
                    None => String::new(),
                };
                (String::new(), String::new(), key_path.clone(), passphrase)
            },
            AuthConfig::Agent => (String::new(), String::new(), String::new(), String::new()),
        };
        let group = match &config.group {
            Some(g) => g.clone(),
            None => String::new(),
        };
        let description = match &config.description {
            Some(d) => d.clone(),
            None => String::new(),
        };
        FormData {
            name: config.name.clone(),
            host: config.host.clone(),
            port: to_decimal(config.port as u64),
            username: config.username.clone(),
            auth_type,
            password_input,
            password_ref,
            key_path,
            passphrase_ref,
            group,
            description,
        }
    }
}

impl Clone for FormData {
    fn clone(&self) -> (r: Self)
        ensures
            r == *self,
    {
        FormData {
            name: self.name.clone(),
            host: self.host.clone(),
            port: self.port.clone(),
            username: self.username.clone(),
            auth_type: self.auth_type,
            password_input: self.password_input.clone(),
            password_ref: self.password_ref.clone(),
            key_path: self.key_path.clone(),
            passphrase_ref: self.passphrase_ref.clone(),
            group: self.group.clone(),
            description: self.description.clone(),
        }
    }
}

/// The form field being typed into.
#[derive(Debug, Clone, Copy, PartialEq, Eq, Structural)]
pub enum EditingField {
    Name,
    Host,
    Port,
    Username,
    PasswordInput,
    PasswordRef,
    KeyPath,
    PassphraseRef,
    Group,
    Description,
}

/// The text a form field shows: `label...` when it is empty and not being
/// typed into; a masked field that is not being typed into shows one
/// bullet per byte of its value, at most 20; otherwise the value.
pub fn field_display_text(label: &str, value: &str, masked: bool, editing: bool) -> (r: String)
    ensures
        r@ == (if value@.len() == 0 && !editing {
            label@ + "..."@
        } else if masked && !editing {
            bullets(if value.len() < 20 { value.len() as nat } else { 20 })
        } else {
            value@
        }),
{
    if value.unicode_len() == 0 && !editing {
        let mut s = owned(label);
        s.append("...");
        proof {
            reveal_strlit("...");
        }
        s
    } else if masked && !editing {
        let bytes = value.len();
        let n: usize = if bytes < 20 {
            bytes
        } else {
            20
        };
        let mut s = String::new();
        let mut i: usize = 0;
        while i < n
            invariant
                0 <= i <= n,
                s@ == bullets(i as nat),
            decreases n - i,
        {
            s.append("•");
            proof {
                reveal_strlit("•");
                assert(s@ =~= bullets((i + 1) as nat));
            }
            i = i + 1;
        }
        s
    } else {
        owned(value)
    }
}

/// The text of a form field.
pub open spec fn field_text(f: FormData, e: EditingField) -> Seq<char> {
    match e {
        EditingField::Name => f.name@,
        EditingField::Host => f.host@,
        EditingField::Port => f.port@,
        EditingField::Username => f.username@,
        EditingField::PasswordInput => f.password_input@,
        EditingField::PasswordRef => f.password_ref@,
        EditingField::KeyPath => f.key_path@,
        EditingField::PassphraseRef => f.passphrase_ref@,
        EditingField::Group => f.group@,
        EditingField::Description => f.description@,
    }
}

/// Whether `b` is `a` with at most the field `e` changed.
pub open spec fn others_unchanged(a: FormData, b: FormData, e: EditingField) -> bool {
    &&& a.auth_type == b.auth_type
    &&& forall|g: EditingField| g != e ==> #[trigger] field_text(a, g) == field_text(b, g)
}

/// `s` without its last character (unchanged when empty).
pub open spec fn without_last(s: Seq<char>) -> Seq<char> {
    if s.len() == 0 {
        s
    } else {
        s.drop_last()
    }
}

fn pop_char(s: &mut String)
    ensures
        final(s)@ == without_last(old(s)@),
{
    let n = s.as_str().unicode_len();
    if n > 0 {
        let t = owned(s.as_str().substring_char(0, n - 1));
        *s = t;
        proof {
            assert(final(s)@ =~= without_last(old(s)@)) by {
                assert(t@ =~= old(s)@.drop_last());
            }
        }
    }
}

/// Whether a key name is one printable character that the form takes as
/// typed text: a single ASCII character other than escape, return, line
/// feed and tab.
pub open spec fn typed_key(key: Seq<char>) -> bool {
    &&& key.len() == 1
    &&& (key[0] as u32) < 0x80
    &&& key[0] != '\u{1b}'
    &&& key[0] != '\r'
    &&& key[0] != '\n'
    &&& key[0] != '\t'
}

/// The text that the key `key` types, shift applied to a lowercase letter.
pub open spec fn typed_text(key: Seq<char>, shift: bool) -> Seq<char> {
    if shift && 'a' <= key[0] <= 'z' {
        seq![((key[0] as u32) - 32) as char]
    } else {
        key
    }
}

fn upper_letter(c: char) -> (r: &'static str)
    requires
        'a' <= c <= 'z',
    ensures
        r@ == seq![((c as u32) - 32) as char],
{
    let letters = "ABCDEFGHIJKLMNOPQRSTUVWXYZ";
    proof {
        reveal_strlit("ABCDEFGHIJKLMNOPQRSTUVWXYZ");
    }
    let k = (c as u32 - 'a' as u32) as usize;
    let r = letters.substring_char(k, k + 1);
    proof {
        assert(r@ =~= seq![letters@[k as int]]);
    }
    r
}

/// What the dialog asks of its owner after a key or a save.
#[derive(Debug)]
pub enum HostDialogAction {
    /// Nothing beyond redrawing.
    Stay,
    /// The dialog was dismissed.
    Cancel,
    /// The form is valid: store the password when the configuration
    /// refers to one, then save the configuration.
    Save(HostConfig),
}

/// What saving the dialog `before` gives: the complaint of validation or
/// conversion, shown and nothing handed out; or no complaint and the
/// configuration, under the edited host's identifier, handed out.
pub open spec fn save_outcome(before: HostConnectionDialog, after: HostConnectionDialog, r: HostDialogAction) -> bool {
    let f = before.form_data;
    let id = match before.original_config {
        Some(c) => c.id,
        None => None,
    };
    match form_error(f) {
        Some(e) => r is Stay && (after.validation_error matches Some(v) && v@ == e),
        None => match conversion_error(f) {
            Some(e) => r is Stay && (after.validation_error matches Some(v) && v@ == e),
            None => after.validation_error is None && (r matches HostDialogAction::Save(c) && converted(f, id, c)),
        },
    }
}

/// A form with every field empty but the port, which reads `22`, and
/// password authentication chosen.
pub open spec fn blank_form(f: FormData) -> bool {
    &&& f.name@.len() == 0
    &&& f.host@.len() == 0
    &&& f.port@ == "22"@
    &&& f.username@.len() == 0
    &&& f.auth_type == AuthType::Password
    &&& f.password_input@.len() == 0
    &&& f.password_ref@.len() == 0
    &&& f.key_path@.len() == 0
    &&& f.passphrase_ref@.len() == 0
    &&& f.group@.len() == 0
    &&& f.description@.len() == 0
}

/// The state of the host dialog.
pub struct HostConnectionDialog {
    pub mode: DialogMode,
    /// The host being edited.
    pub original_config: Option<HostConfig>,
    pub form_data: FormData,
    /// The complaint shown above the form.
    pub validation_error: Option<String>,
    /// The field being typed into.
    pub editing_field: Option<EditingField>,
}

impl HostConnectionDialog {
    /// A dialog that creates a host, with an empty form.
    pub fn new_create() -> (r: HostConnectionDialog)
        ensures
            r.mode == DialogMode::Create,
            r.original_config is None,
            blank_form(r.form_data),
            r.validation_error is None,
            r.editing_field is None,
    {
        HostConnectionDialog {
            mode: DialogMode::Create,
            original_config: None,
            form_data: FormData::new(),
            validation_error: None,
            editing_field: None,
        }
    }

    /// A dialog that edits `config`; `stored_password` as for
    /// `FormData::from_host_config`.
    pub fn new_edit(config: HostConfig, stored_password: Option<String>) -> (r: HostConnectionDialog)
        ensures
            r.mode == DialogMode::Edit,
            r.original_config == Some(config),
            r.form_data.name == config.name,
            r.form_data.host == config.host,
            r.form_data.port@ == decimal(config.port as nat),
            r.form_data.username == config.username,
            r.form_data.auth_type == auth_type_of(config.auth_config),
            r.validation_error is None,
            r.editing_field is None,
    {
        let form_data = FormData::from_host_config(&config, stored_password);
        HostConnectionDialog {
            mode: DialogMode::Edit,
            original_config: Some(config),
            form_data,
            validation_error: None,
            editing_field: None,
        }
    }

    /// Starts typing into `field`.
    pub fn start_editing(&mut self, field: EditingField)
        ensures
            final(self).editing_field == Some(field),
            final(self).form_data == old(self).form_data,
            final(self).validation_error == old(self).validation_error,
            final(self).mode == old(self).mode,
            final(self).original_config == old(self).original_config,
    {
        self.editing_field = Some(field);
    }

    /// Stops typing.
    pub fn stop_editing(&mut self)
        ensures
            final(self).editing_field is None,
            final(self).form_data == old(self).form_data,
            final(self).validation_error == old(self).validation_error,
            final(self).mode == old(self).mode,
            final(self).original_config == old(self).original_config,
    {
        self.editing_field = None;
    }

    /// Appends `input` to the field being typed into, if any.
    pub fn handle_key_input(&mut self, input: &str)
        ensures
            final(self).editing_field == old(self).editing_field,
            final(self).validation_error == old(self).validation_error,
            final(self).mode == old(self).mode,
            final(self).original_config == old(self).original_config,
            match old(self).editing_field {
                Some(e) => field_text(final(self).form_data, e) == field_text(old(self).form_data, e)
                    + input@ && others_unchanged(old(self).form_data, final(self).form_data, e),
                None => final(self).form_data == old(self).form_data,
            },
    {
        match self.editing_field {
            Some(EditingField::Name) => self.form_data.name.append(input),
            Some(EditingField::Host) => self.form_data.host.append(input),
            Some(EditingField::Port) => self.form_data.port.append(input),
            Some(EditingField::Username) => self.form_data.username.append(input),
            Some(EditingField::PasswordInput) => self.form_data.password_input.append(input),
            Some(EditingField::PasswordRef) => self.form_data.password_ref.append(input),
            Some(EditingField::KeyPath) => self.form_data.key_path.append(input),
            Some(EditingField::PassphraseRef) => self.form_data.passphrase_ref.append(input),
            Some(EditingField::Group) => self.form_data.group.append(input),
            Some(EditingField::Description) => self.form_data.description.append(input),
            None => {},
        }
    }

    /// Drops the last character of the field being typed into, if any.
    pub fn handle_backspace(&mut self)
        ensures
            final(self).editing_field == old(self).editing_field,
            final(self).validation_error == old(self).validation_error,
            final(self).mode == old(self).mode,
            final(self).original_config == old(self).original_config,
            match old(self).editing_field {
                Some(e) => field_text(final(self).form_data, e) == without_last(
                    field_text(old(self).form_data, e),
                ) && others_unchanged(old(self).form_data, final(self).form_data, e),
                None => final(self).form_data == old(self).form_data,
            },
    {
        match self.editing_field {
            Some(EditingField::Name) => pop_char(&mut self.form_data.name),
            Some(EditingField::Host) => pop_char(&mut self.form_data.host),
            Some(EditingField::Port) => pop_char(&mut self.form_data.port),
            Some(EditingField::Username) => pop_char(&mut self.form_data.username),
            Some(EditingField::PasswordInput) => pop_char(&mut self.form_data.password_input),
            Some(EditingField::PasswordRef) => pop_char(&mut self.form_data.password_ref),
            Some(EditingField::KeyPath) => pop_char(&mut self.form_data.key_path),
            Some(EditingField::PassphraseRef) => pop_char(&mut self.form_data.passphrase_ref),
            Some(EditingField::Group) => pop_char(&mut self.form_data.group),
            Some(EditingField::Description) => pop_char(&mut self.form_data.description),
            None => {},
        }
    }

    /// The dialog's title.
    pub fn title(&self) -> (r: &'static str)
        ensures
            r@ == (match self.mode {
                DialogMode::Create => "New Host Connection"@,
                DialogMode::Edit => "Edit Host Connection"@,
            }),
    {
        match self.mode {
            DialogMode::Create => "New Host Connection",
            DialogMode::Edit => "Edit Host Connection",
        }
    }

    /// The label of the confirming button.
    pub fn save_label(&self) -> (r: &'static str)
        ensures
            r@ == (match self.mode {
                DialogMode::Create => "Create"@,
                DialogMode::Edit => "Save"@,
            }),
    {
        match self.mode {
            DialogMode::Create => "Create",
            DialogMode::Edit => "Save",
        }
    }

    /// Validates and converts the form. On success the complaint is
    /// cleared and the configuration, under the edited host's identifier,
    /// is handed out; otherwise the complaint is shown.
    pub fn handle_save(&mut self) -> (r: HostDialogAction)
        ensures
            final(self).form_data == old(self).form_data,
            final(self).editing_field == old(self).editing_field,
            final(self).mode == old(self).mode,
            final(self).original_config == old(self).original_config,
            save_outcome(*old(self), *final(self), r),
    {
        match self.form_data.validate() {
            Err(e) => {
                self.validation_error = Some(e);
                return HostDialogAction::Stay;
            },
            Ok(()) => {},
        }
        let original_id = match &self.original_config {
            Some(c) => c.id,
            None => None,
        };
        match self.form_data.to_host_config(original_id) {
            Ok(config) => {
                self.validation_error = None;
                HostDialogAction::Save(config)
            },
            Err(e) => {
                self.validation_error = Some(e);
                HostDialogAction::Stay
            },
        }
    }

    /// Shows `error` above the form (a failure the owner met while saving).
    pub fn set_validation_error(&mut self, error: String)
        ensures
            final(self).validation_error == Some(error),
            final(self).form_data == old(self).form_data,
            final(self).editing_field == old(self).editing_field,
            final(self).mode == old(self).mode,
            final(self).original_config == old(self).original_config,
    {
        self.validation_error = Some(error);
    }

    /// Reacts to a key: escape stops typing, or dismisses the dialog when
    /// nothing is being typed; enter saves when nothing is being typed;
    /// backspace deletes while typing; a printable character is typed
    /// (shift makes a lowercase letter uppercase); anything else changes
    /// nothing.
    pub fn handle_key_down(&mut self, key: &str, shift: bool) -> (r: HostDialogAction)
        ensures
            final(self).mode == old(self).mode,
            final(self).original_config == old(self).original_config,
            key@ == "escape"@ ==> if old(self).editing_field is Some {
                final(self).editing_field is None && final(self).form_data == old(self).form_data
                    && r is Stay
            } else {
                r is Cancel && final(self).form_data == old(self).form_data
            },
            key@ == "enter"@ && old(self).editing_field is Some ==> r is Stay && final(self).form_data
                == old(self).form_data,
            key@ == "enter"@ && old(self).editing_field is None ==> save_outcome(*old(self), *final(self), r)
                && final(self).form_data == old(self).form_data,
            key@ == "backspace"@ ==> r is Stay && final(self).editing_field == old(self).editing_field
                && match old(self).editing_field {
                Some(e) => field_text(final(self).form_data, e) == without_last(
                    field_text(old(self).form_data, e),
                ) && others_unchanged(old(self).form_data, final(self).form_data, e),
                None => final(self).form_data == old(self).form_data,
            },
            key@ != "escape"@ && key@ != "enter"@ && key@ != "backspace"@ ==> r is Stay
                && final(self).editing_field == old(self).editing_field && match old(self).editing_field {
                Some(e) => if typed_key(key@) {
                    field_text(final(self).form_data, e) == field_text(old(self).form_data, e)
                        + typed_text(key@, shift) && others_unchanged(
                        old(self).form_data,
                        final(self).form_data,
                        e,
                    )
                } else {
                    final(self).form_data == old(self).form_data
                },
                None => final(self).form_data == old(self).form_data,
            },
    {
        proof {
            reveal_strlit("escape");
            reveal_strlit("enter");
            reveal_strlit("backspace");
            assert("escape"@.len() == 6 && "enter"@.len() == 5 && "backspace"@.len() == 9);
            assert("escape"@[1] != "enter"@[1]);
        }
        if crate::text::str_eq(key, "escape") {
            if self.editing_field.is_some() {
                self.stop_editing();
                return HostDialogAction::Stay;
            }
            return HostDialogAction::Cancel;
        }
        if crate::text::str_eq(key, "enter") {
            if self.editing_field.is_none() {
                return self.handle_save();
            }
            return HostDialogAction::Stay;
        }
        if crate::text::str_eq(key, "backspace") {
            self.handle_backspace();
            return HostDialogAction::Stay;
        }
        if self.editing_field.is_some() && key.unicode_len() == 1 {
            let c = key.get_char(0);
            if (c as u32) < 0x80 && c != '\u{1b}' && c != '\r' && c != '\n' && c != '\t' {
                if shift && 'a' <= c && c <= 'z' {
                    self.handle_key_input(upper_letter(c));
                } else {
                    self.handle_key_input(key);
                }
            }
        }
        HostDialogAction::Stay
    }
}

} // verus!
