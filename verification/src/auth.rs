//! Credential resolution: classifying a URL's authentication mode,
//! choosing the credential for one authentication attempt, conventional
//! SSH key discovery, and the keyring-backed credential store.

use vstd::prelude::*;
use crate::hostio::{
    home_dir, keyring_delete_password, keyring_entry, keyring_error_is_no_entry,
    keyring_error_message, keyring_get_password, keyring_set_password, path_exists,
    url_username, url_username_of,
};
use crate::text::{
    concat2, find_char, is_subseq_of, lemma_subseq_push_both, lemma_subseq_push_right,
    replace_all, replace_seq, str_contains, str_starts_with, substring_of, contains_seq,
    is_prefix_of,
};
use crate::types::{AuthConfig, AuthType, GitError};

verus! {

broadcast use vstd::string::group_string_axioms;

/// The credential chosen for one authentication attempt; the caller
/// turns it into the transport library's credential object.
#[derive(Debug, Clone)]
pub enum CredChoice {
    /// The transport's default credential (anonymous or helper-mediated).
    UseDefault,
    /// Plaintext username and password (also carries token attempts).
    UserPass { username: String, password: String },
    /// An SSH key read from disk.
    SshKeyFile {
        username: String,
        private_key_path: String,
        public_key_path: Option<String>,
        passphrase: Option<String>,
    },
    /// A credential resolved by the running SSH agent.
    SshFromAgent { username: String },
}

/// The view of an optional string.
pub open spec fn opt_view(o: &Option<String>) -> Option<Seq<char>> {
    match o {
        Some(s) => Some(s@),
        None => None,
    }
}

/// The view of an optional string slice.
pub open spec fn opt_str_view(o: &Option<&str>) -> Option<Seq<char>> {
    match o {
        Some(s) => Some(s@),
        None => None,
    }
}

/// The username for an attempt: the configured one, else the one from
/// the URL, else the default.
pub open spec fn chosen_name(
    configured: Option<Seq<char>>,
    from_url: Option<Seq<char>>,
    dflt: Seq<char>,
) -> Seq<char> {
    if configured is Some {
        configured->0
    } else if from_url is Some {
        from_url->0
    } else {
        dflt
    }
}

/// `url` is an scp-style `user@host:path` address witnessed at `a`
/// (the `@`) and `c` (the `:` after it): nothing before the `@`, nor
/// between the `@` and the `:`, is a separator.
pub open spec fn scp_style_at(url: Seq<char>, a: int, c: int) -> bool {
    &&& 0 <= a < c < url.len()
    &&& url[a] == '@'
    &&& url[c] == ':'
    &&& (forall|j: int| 0 <= j < a ==> url[j] != '@' && url[j] != ':' && url[j] != '/')
    &&& (forall|j: int| a < j < c ==> url[j] != ':' && url[j] != '/')
}

/// `url` is an scp-style `user@host:path` address (the SSH address form
/// that a standard URL parser does not take).
pub open spec fn spec_is_scp_style(url: Seq<char>) -> bool {
    exists|a: int, c: int| scp_style_at(url, a, c)
}

/// Whether the text is an scp-style `user@host:path` address.
pub fn is_scp_style_url(url: &str) -> (r: bool)
    ensures
        r == spec_is_scp_style(url@),
{
    let sl = url.unicode_len();
    let mut i: usize = 0;
    // scan for the '@'; hitting ':' or '/' first rules the form out
    loop
        invariant
            i <= sl,
            sl == url@.len(),
            forall|j: int| 0 <= j < i ==> url@[j] != '@' && url@[j] != ':' && url@[j] != '/',
        ensures
            i <= sl,
            forall|j: int| 0 <= j < i ==> url@[j] != '@' && url@[j] != ':' && url@[j] != '/',
            i < sl ==> url@[i as int] == '@',
        decreases sl - i,
    {
        if i >= sl {
            break;
        }
        let ch = url.get_char(i);
        if ch == '@' {
            break;
        }
        if ch == ':' || ch == '/' {
            proof {
                assert forall|a: int, c: int| !scp_style_at(url@, a, c) by {
                    if scp_style_at(url@, a, c) {
                        if a < i {
                            assert(url@[a] != '@');
                        } else if a == i {
                            assert(url@[a] == ch);
                        } else {
                            assert(url@[i as int] != ':' && url@[i as int] != '/');
                        }
                    }
                }
            }
            return false;
        }
        i = i + 1;
    }
    if i >= sl {
        proof {
            assert forall|a: int, c: int| !scp_style_at(url@, a, c) by {
                if scp_style_at(url@, a, c) {
                    assert(url@[a] != '@');
                }
            }
        }
        return false;
    }
    let a = i;
    let mut k: usize = a + 1;
    // scan for the ':'; hitting '/' first, or the end, rules it out
    loop
        invariant
            a < k <= sl,
            sl == url@.len(),
            url@[a as int] == '@',
            forall|j: int| 0 <= j < a ==> url@[j] != '@' && url@[j] != ':' && url@[j] != '/',
            forall|j: int| a < j < k ==> url@[j] != ':' && url@[j] != '/',
        ensures
            a < k <= sl,
            forall|j: int| a < j < k ==> url@[j] != ':' && url@[j] != '/',
            k < sl ==> url@[k as int] == ':',
        decreases sl - k,
    {
        if k >= sl {
            break;
        }
        let ch = url.get_char(k);
        if ch == ':' {
            break;
        }
        if ch == '/' {
            proof {
                assert forall|a2: int, c2: int| !scp_style_at(url@, a2, c2) by {
                    if scp_style_at(url@, a2, c2) {
                        if a2 < a {
                            assert(url@[a2] != '@');
                        } else if a2 > a {
                            assert(url@[a as int] != '@');
                        } else {
                            if c2 < k {
                                assert(url@[c2] != ':');
                            } else if c2 == k {
                                assert(url@[c2] == ch);
                            } else {
                                assert(url@[k as int] != ':' && url@[k as int] != '/');
                            }
                        }
                    }
                }
            }
            return false;
        }
        k = k + 1;
    }
    if k >= sl {
        proof {
            assert forall|a2: int, c2: int| !scp_style_at(url@, a2, c2) by {
                if scp_style_at(url@, a2, c2) {
                    if a2 < a {
                        assert(url@[a2] != '@');
                    } else if a2 > a {
                        assert(url@[a as int] != '@');
                    } else {
                        assert(url@[c2] != ':');
                    }
                }
            }
        }
        return false;
    }
    proof {
        assert(scp_style_at(url@, a as int, k as int));
    }
    true
}

/// The first public-key candidate beside a private key: the original's
/// extension rewrite (`.pem` / `.key` to `.pub`) with `.pub` appended.
pub open spec fn pubkey_rewritten(k: Seq<char>) -> Seq<char> {
    replace_seq(replace_seq(k, ".pem"@, ".pub"@), ".key"@, ".pub"@) + ".pub"@
}

/// Manager of credential material: attempt construction, key discovery,
/// and the secret store.
pub struct AuthManager;

impl AuthManager {
    /// Chooses the credential for one authentication attempt, honoring
    /// which credential kinds the server allows.  Exactly mirrors the
    /// configured material: missing material is an authentication
    /// failure, never a guess.  Only the public-key probe beside a
    /// configured private key depends on the disk.
    pub fn create_credentials(
        auth: &AuthConfig,
        username_from_url: Option<&str>,
        allowed_userpass: bool,
        allowed_ssh: bool,
        allowed_default: bool,
    ) -> (r: Result<CredChoice, GitError>)
        ensures
            auth.auth_type == AuthType::Anonymous ==> (if allowed_default {
                r matches Ok(CredChoice::UseDefault)
            } else {
                r matches Err(GitError::AuthenticationFailed { .. })
            }),
            auth.auth_type == AuthType::Password && !allowed_userpass ==> r matches Err(
                GitError::AuthenticationFailed { .. },
            ),
            auth.auth_type == AuthType::Password && allowed_userpass && auth.username is None
                && username_from_url is None ==> r matches Err(
                GitError::AuthenticationFailed { .. },
            ),
            auth.auth_type == AuthType::Password && allowed_userpass && (auth.username is Some
                || username_from_url is Some) && auth.password is None ==> r matches Err(
                GitError::AuthenticationFailed { .. },
            ),
            auth.auth_type == AuthType::Password && allowed_userpass && (auth.username is Some
                || username_from_url is Some) && auth.password is Some ==> (r matches Ok(
                CredChoice::UserPass { username, password },
            ) && username@ == chosen_name(
                opt_view(&auth.username),
                opt_str_view(&username_from_url),
                ""@,
            ) && password@ == auth.password->0@),
            auth.auth_type == AuthType::Token && !allowed_userpass ==> r matches Err(
                GitError::AuthenticationFailed { .. },
            ),
            auth.auth_type == AuthType::Token && allowed_userpass && auth.token is None
                ==> r matches Err(GitError::AuthenticationFailed { .. }),
            auth.auth_type == AuthType::Token && allowed_userpass && auth.token is Some ==> (
            r matches Ok(CredChoice::UserPass { username, password }) && username@ == chosen_name(
                opt_view(&auth.username),
                opt_str_view(&username_from_url),
                "token"@,
            ) && password@ == auth.token->0@),
            auth.auth_type == AuthType::Ssh && !allowed_ssh ==> r matches Err(
                GitError::AuthenticationFailed { .. },
            ),
            auth.auth_type == AuthType::Ssh && allowed_ssh && auth.ssh_key_path is Some ==> (
            r matches Ok(
                CredChoice::SshKeyFile {
                    username,
                    private_key_path,
                    public_key_path,
                    passphrase,
                },
            ) && username@ == chosen_name(
                opt_view(&auth.username),
                opt_str_view(&username_from_url),
                "git"@,
            ) && private_key_path@ == auth.ssh_key_path->0@ && opt_view(&passphrase) == opt_view(
                &auth.ssh_key_passphrase,
            ) && (match public_key_path {
                Some(p) => p@ == pubkey_rewritten(auth.ssh_key_path->0@) || p@ == auth.ssh_key_path->0@
                    + ".pub"@,
                None => true,
            })),
            auth.auth_type == AuthType::Ssh && allowed_ssh && auth.ssh_key_path is None ==> (
            r matches Ok(CredChoice::SshFromAgent { username }) && username@ == chosen_name(
                opt_view(&auth.username),
                opt_str_view(&username_from_url),
                "git"@,
            )),
    {
        match auth.auth_type {
            AuthType::Anonymous => {
                if allowed_default {
                    Ok(CredChoice::UseDefault)
                } else {
                    Err(GitError::AuthenticationFailed {
                        message: String::from_str(
                            "authentication required but no credentials provided",
                        ),
                    })
                }
            },
            AuthType::Password => {
                if !allowed_userpass {
                    return Err(GitError::AuthenticationFailed {
                        message: String::from_str(
                            "server does not support username/password authentication",
                        ),
                    });
                }
                let username: String = match &auth.username {
                    Some(u) => u.clone(),
                    None => match username_from_url {
                        Some(u) => String::from_str(u),
                        None => {
                            return Err(GitError::AuthenticationFailed {
                                message: String::from_str("missing username"),
                            });
                        },
                    },
                };
                let password: String = match &auth.password {
                    Some(p) => p.clone(),
                    None => {
                        return Err(GitError::AuthenticationFailed {
                            message: String::from_str("missing password"),
                        });
                    },
                };
                Ok(CredChoice::UserPass { username, password })
            },
            AuthType::Token => {
                if !allowed_userpass {
                    return Err(GitError::AuthenticationFailed {
                        message: String::from_str("server does not support token authentication"),
                    });
                }
                let token: String = match &auth.token {
                    Some(t) => t.clone(),
                    None => {
                        return Err(GitError::AuthenticationFailed {
                            message: String::from_str("missing access token"),
                        });
                    },
                };
                let username: String = match &auth.username {
                    Some(u) => u.clone(),
                    None => match username_from_url {
                        Some(u) => String::from_str(u),
                        None => String::from_str("token"),
                    },
                };
                Ok(CredChoice::UserPass { username, password: token })
            },
            AuthType::Ssh => {
                if !allowed_ssh {
                    return Err(GitError::AuthenticationFailed {
                        message: String::from_str("server does not support SSH key authentication"),
                    });
                }
                let username: String = match &auth.username {
                    Some(u) => u.clone(),
                    None => match username_from_url {
                        Some(u) => String::from_str(u),
                        None => String::from_str("git"),
                    },
                };
                match &auth.ssh_key_path {
                    Some(key_path) => {
                        let public_key_path = Self::get_public_key_path(key_path.as_str());
                        let passphrase: Option<String> = match &auth.ssh_key_passphrase {
                            Some(p) => Some(p.clone()),
                            None => None,
                        };
                        Ok(CredChoice::SshKeyFile {
                            username,
                            private_key_path: key_path.clone(),
                            public_key_path,
                            passphrase,
                        })
                    },
                    None => Ok(CredChoice::SshFromAgent { username }),
                }
            },
        }
    }

    /// Looks for a public key beside a private key: first the extension
    /// rewrite candidate, then the path with `.pub` appended; returns
    /// whichever exists on disk, if either.
    pub fn get_public_key_path(private_key_path: &str) -> (r: Option<String>)
        ensures
            match r {
                Some(p) => p@ == pubkey_rewritten(private_key_path@) || p@ == private_key_path@
                    + ".pub"@,
                None => true,
            },
    {
        let rewritten = replace_all(
            replace_all(private_key_path, ".pem", ".pub").as_str(),
            ".key",
            ".pub",
        );
        let candidate1 = concat2(rewritten.as_str(), ".pub");
        if path_exists(candidate1.as_str()) {
            return Some(candidate1);
        }
        let candidate2 = concat2(private_key_path, ".pub");
        if path_exists(candidate2.as_str()) {
            return Some(candidate2);
        }
        None
    }

    /// The conventional private-key paths under `home/.ssh`, most modern
    /// algorithm first.
    pub open spec fn ssh_key_candidates(home: Seq<char>) -> Seq<Seq<char>> {
        seq![
            home + "/.ssh/"@ + "id_ed25519"@,
            home + "/.ssh/"@ + "id_ecdsa"@,
            home + "/.ssh/"@ + "id_rsa"@,
            home + "/.ssh/"@ + "id_dsa"@,
        ]
    }

    /// The conventional SSH keys that exist on disk, in priority order:
    /// the result is a subsequence of the candidate list for some home
    /// directory.
    pub fn get_default_ssh_keys() -> (r: Vec<String>)
        ensures
            r.deep_view().len() <= 4,
            exists|home: Seq<char>|
                is_subseq_of(r.deep_view(), #[trigger] Self::ssh_key_candidates(home)),
    {
        let mut keys: Vec<String> = Vec::new();
        let home = match home_dir() {
            Some(h) => h,
            None => {
                proof {
                    assert(keys.deep_view() =~= Seq::<Seq<char>>::empty());
                    assert(is_subseq_of(
                        keys.deep_view(),
                        Self::ssh_key_candidates(Seq::<char>::empty()),
                    ));
                }
                return keys;
            },
        };
        let ssh_dir = concat2(home.as_str(), "/.ssh/");
        let mut names: Vec<&'static str> = Vec::new();
        names.push("id_ed25519");
        names.push("id_ecdsa");
        names.push("id_rsa");
        names.push("id_dsa");
        let ghost cands = Self::ssh_key_candidates(home@);
        let mut i: usize = 0;
        while i < names.len()
            invariant
                names.len() == 4,
                names@[0]@ == "id_ed25519"@,
                names@[1]@ == "id_ecdsa"@,
                names@[2]@ == "id_rsa"@,
                names@[3]@ == "id_dsa"@,
                ssh_dir@ == home@ + "/.ssh/"@,
                cands == Self::ssh_key_candidates(home@),
                i <= 4,
                keys.deep_view().len() <= i,
                is_subseq_of(keys.deep_view(), cands.subrange(0, i as int)),
            decreases names.len() - i,
        {
            let candidate = concat2(ssh_dir.as_str(), names[i]);
            proof {
                assert(cands.subrange(0, i + 1) =~= cands.subrange(0, i as int).push(
                    cands[i as int],
                ));
                if i == 0 {
                    assert(candidate@ == cands[0]);
                } else if i == 1 {
                    assert(candidate@ == cands[1]);
                } else if i == 2 {
                    assert(candidate@ == cands[2]);
                } else {
                    assert(candidate@ == cands[3]);
                }
            }
            if path_exists(candidate.as_str()) {
                proof {
                    assert(candidate@ == cands[i as int]);
                    lemma_subseq_push_both(keys.deep_view(), cands.subrange(0, i as int), cands[i as int]);
                }
                let ghost old_keys = keys.deep_view();
                keys.push(candidate);
                proof {
                    assert(keys.deep_view() =~= old_keys.push(cands[i as int]));
                }
            } else {
                proof {
                    lemma_subseq_push_right(keys.deep_view(), cands.subrange(0, i as int), cands[i as int]);
                }
            }
            i = i + 1;
        }
        proof {
            assert(cands.subrange(0, 4) =~= cands);
            assert(is_subseq_of(keys.deep_view(), Self::ssh_key_candidates(home@)));
        }
        keys
    }

    /// Classifies a URL's authentication mode: SSH for `ssh://` and for
    /// scp-style `user@host:` addresses, token for `http(s)://`,
    /// anonymous otherwise.
    pub fn detect_auth_type(url: &str) -> (r: AuthType)
        ensures
            r == AuthType::Ssh <==> (is_prefix_of("ssh://"@, url@) || spec_is_scp_style(url@)),
            r == AuthType::Token <==> (!is_prefix_of("ssh://"@, url@) && !spec_is_scp_style(url@)
                && (is_prefix_of("https://"@, url@) || is_prefix_of("http://"@, url@))),
            r == AuthType::Anonymous <==> (!is_prefix_of("ssh://"@, url@) && !spec_is_scp_style(
                url@,
            ) && !is_prefix_of("https://"@, url@) && !is_prefix_of("http://"@, url@)),
    {
        if str_starts_with(url, "ssh://") || is_scp_style_url(url) {
            AuthType::Ssh
        } else if str_starts_with(url, "https://") || str_starts_with(url, "http://") {
            AuthType::Token
        } else {
            AuthType::Anonymous
        }
    }

    /// Extracts a username from a repository URL: the text before the
    /// `@` of an scp-style `user@host:path` address, else the non-empty
    /// username of a parsed standard URL.
    pub fn extract_username_from_url(url: &str) -> (r: Option<String>)
        ensures
            spec_is_scp_style(url@) ==> (r matches Some(u) && (exists|i: int|
                0 <= i < url@.len() && url@[i] == '@' && u@ == url@.subrange(0, i) && forall|j: int|
                    0 <= j < i ==> url@[j] != '@')),
            !spec_is_scp_style(url@) ==> (match url_username_of(url@) {
                Some(u) => (u.len() > 0 ==> (r matches Some(ru) && ru@ == u)) && (u.len() == 0
                    ==> r is None),
                None => r is None,
            }),
    {
        if is_scp_style_url(url) {
            match find_char(url, '@') {
                Some(at_pos) => {
                    let u = substring_of(url, 0, at_pos);
                    proof {
                        assert(0 <= at_pos < url@.len() && url@[at_pos as int] == '@' && u@
                            == url@.subrange(0, at_pos as int));
                    }
                    return Some(u);
                },
                None => {
                    // unreachable: an scp-style address holds an '@'
                    proof {
                        let (a, c) = choose|a: int, c: int| scp_style_at(url@, a, c);
                        assert(url@[a] == '@');
                        assert(false);
                    }
                    return None;
                },
            }
        }
        match url_username(url) {
            Some(u) => {
                if u.as_str().unicode_len() > 0 {
                    Some(u)
                } else {
                    None
                }
            },
            None => None,
        }
    }

    /// Whether file content looks like an SSH private key: it must hold
    /// a PEM begin marker and a private-key tag.
    pub fn ssh_key_content_is_valid(content: &str) -> (r: bool)
        ensures
            r == (contains_seq(content@, "-----BEGIN"@) && (contains_seq(
                content@,
                "PRIVATE KEY"@,
            ) || contains_seq(content@, "OPENSSH PRIVATE KEY"@))),
    {
        str_contains(content, "-----BEGIN") && (str_contains(content, "PRIVATE KEY")
            || str_contains(content, "OPENSSH PRIVATE KEY"))
    }

    /// Stores credential material for a URL in the system keyring under
    /// the engine's service name.
    pub fn store_credentials(url: &str, auth: &AuthConfig) -> (r: Result<(), GitError>)
        ensures
            r matches Err(e) ==> (e matches GitError::Unknown { .. }),
    {
        let account = concat2("git:", url);
        let blob = encode_auth_config(auth);
        match keyring_entry("AtomDesk", account.as_str()) {
            Ok(entry) => match keyring_set_password(&entry, blob.as_str()) {
                Ok(()) => Ok(()),
                Err(e) => Err(GitError::Unknown {
                    message: concat2(
                        "failed to store credentials: ",
                        keyring_error_message(&e).as_str(),
                    ),
                }),
            },
            Err(e) => Err(GitError::Unknown {
                message: concat2(
                    "failed to create keyring entry: ",
                    keyring_error_message(&e).as_str(),
                ),
            }),
        }
    }

    /// Loads credential material for a URL from the system keyring;
    /// a missing record is `Ok(None)`, not an error.
    pub fn load_credentials(url: &str) -> (r: Result<Option<AuthConfig>, GitError>)
        ensures
            r matches Err(e) ==> (e matches GitError::Unknown { .. }),
    {
        let account = concat2("git:", url);
        match keyring_entry("AtomDesk", account.as_str()) {
            Ok(entry) => match keyring_get_password(&entry) {
                Ok(blob) => match decode_auth_config(blob.as_str()) {
                    Some(auth) => Ok(Some(auth)),
                    None => Err(GitError::Unknown {
                        message: String::from_str("failed to deserialize credentials"),
                    }),
                },
                Err(e) => {
                    if keyring_error_is_no_entry(&e) {
                        Ok(None)
                    } else {
                        Err(GitError::Unknown {
                            message: concat2(
                                "failed to load credentials: ",
                                keyring_error_message(&e).as_str(),
                            ),
                        })
                    }
                },
            },
            Err(e) => Err(GitError::Unknown {
                message: concat2(
                    "failed to create keyring entry: ",
                    keyring_error_message(&e).as_str(),
                ),
            }),
        }
    }

    /// Deletes the credential record stored for a URL.
    pub fn delete_credentials(url: &str) -> (r: Result<(), GitError>)
        ensures
            r matches Err(e) ==> (e matches GitError::Unknown { .. }),
    {
        let account = concat2("git:", url);
        match keyring_entry("AtomDesk", account.as_str()) {
            Ok(entry) => match keyring_delete_password(&entry) {
                Ok(()) => Ok(()),
                Err(e) => Err(GitError::Unknown {
                    message: concat2(
                        "failed to delete credentials: ",
                        keyring_error_message(&e).as_str(),
                    ),
                }),
            },
            Err(e) => Err(GitError::Unknown {
                message: concat2(
                    "failed to create keyring entry: ",
                    keyring_error_message(&e).as_str(),
                ),
            }),
        }
    }
}

/// Turns a credential choice into the transport library's credential
/// object.
pub(crate) fn cred_from_choice(choice: &CredChoice) -> Result<git2::Cred, git2::Error> {
    match choice {
        CredChoice::UseDefault => crate::gitio::cred_default(),
        CredChoice::UserPass { username, password } => crate::gitio::cred_userpass(
            username.as_str(),
            password.as_str(),
        ),
        CredChoice::SshKeyFile { username, private_key_path, public_key_path, passphrase } => {
            crate::gitio::cred_ssh_key(
                username.as_str(),
                public_key_path.as_ref(),
                private_key_path.as_str(),
                passphrase.as_ref(),
            )
        },
        CredChoice::SshFromAgent { username } => crate::gitio::cred_ssh_key_from_agent(
            username.as_str(),
        ),
    }
}

/// One run of the configured-credential callback: resolves the choice
/// for the configured material and builds the credential; failures are
/// surfaced as transport errors.
pub(crate) fn credential_callback_step(
    auth: &AuthConfig,
    username_from_url: Option<&str>,
    allowed_userpass: bool,
    allowed_ssh: bool,
    allowed_default: bool,
) -> Result<git2::Cred, git2::Error> {
    match AuthManager::create_credentials(
        auth,
        username_from_url,
        allowed_userpass,
        allowed_ssh,
        allowed_default,
    ) {
        Ok(choice) => cred_from_choice(&choice),
        Err(e) => Err(crate::gitio::git_error_from_str(e.message_text().as_str())),
    }
}

/// The decision of the token-credential callback for one attempt.
/// `attempts` counts the attempts already made for this operation; the
/// call records one more.  No more than three attempts ever produce a
/// credential: from the fourth call on, the result is always an error.
pub fn token_credential_choice(
    attempts: &mut u32,
    token: Option<&String>,
    username_from_url: Option<&str>,
    url: &str,
) -> (r: Result<CredChoice, GitError>)
    ensures
        *final(attempts) as int == if *old(attempts) < u32::MAX {
            *old(attempts) + 1
        } else {
            *old(attempts) as int
        },
        *old(attempts) >= 3 ==> r matches Err(GitError::AuthenticationFailed { .. }),
        ({
            let is_http = is_prefix_of("https://"@, url@) || is_prefix_of("http://"@, url@);
            &&& (*old(attempts) == 0 && is_http && token is Some ==> (r matches Ok(
                CredChoice::UserPass { username, password },
            ) && username@ == token->0@ && password@ == Seq::<char>::empty()))
            &&& (*old(attempts) == 1 && is_http && token is Some ==> (r matches Ok(
                CredChoice::UserPass { username, password },
            ) && username@ == (match username_from_url {
                Some(u) => u@,
                None => "git"@,
            }) && password@ == token->0@))
            &&& (*old(attempts) == 2 && is_http && token is Some ==> r matches Err(
                GitError::AuthenticationFailed { .. },
            ))
            &&& (*old(attempts) == 0 && !(is_http && token is Some) ==> r matches Ok(
                CredChoice::UseDefault,
            ))
            &&& (1 <= *old(attempts) < 3 && !(is_http && token is Some) ==> r matches Err(
                GitError::AuthenticationFailed { .. },
            ))
        }),
{
    if *attempts < u32::MAX {
        *attempts = *attempts + 1;
    }
    let n = *attempts;
    if n > 3 {
        return Err(GitError::AuthenticationFailed {
            message: String::from_str("authentication failed: too many attempts"),
        });
    }
    let is_http = str_starts_with(url, "https://") || str_starts_with(url, "http://");
    if is_http {
        match token {
            Some(t) => {
                if n == 1 {
                    return Ok(CredChoice::UserPass {
                        username: t.clone(),
                        password: String::new(),
                    });
                } else if n == 2 {
                    let username = match username_from_url {
                        Some(u) => String::from_str(u),
                        None => String::from_str("git"),
                    };
                    return Ok(CredChoice::UserPass { username, password: t.clone() });
                }
            },
            None => {},
        }
    }
    if n == 1 {
        Ok(CredChoice::UseDefault)
    } else {
        Err(GitError::AuthenticationFailed {
            message: String::from_str("authentication failed"),
        })
    }
}

/// One run of the token-credential callback: chooses per the attempt
/// counter and builds the credential.
pub(crate) fn token_callback_step(
    attempts: &mut u32,
    token: Option<&String>,
    username_from_url: Option<&str>,
    url: &str,
) -> Result<git2::Cred, git2::Error> {
    match token_credential_choice(attempts, token, username_from_url, url) {
        Ok(choice) => cred_from_choice(&choice),
        Err(e) => Err(crate::gitio::git_error_from_str(e.message_text().as_str())),
    }
}

/// The tag character of an authentication mode in the stored blob.
pub open spec fn auth_type_tag(t: AuthType) -> Seq<char> {
    match t {
        AuthType::Password => "P"@,
        AuthType::Token => "T"@,
        AuthType::Ssh => "S"@,
        AuthType::Anonymous => "A"@,
    }
}

/// The escaped form of one stored character: backslash and newline
/// are escaped so that no field can hold the line separator.
pub open spec fn escape_char(c: char) -> Seq<char> {
    if c == '\\' {
        seq!['\\', '\\']
    } else if c == '\n' {
        seq!['\\', 'n']
    } else {
        seq![c]
    }
}

/// The escaped form of a stored field's text.
pub open spec fn escape_seq(v: Seq<char>) -> Seq<char>
    decreases v.len(),
{
    if v.len() == 0 {
        Seq::<char>::empty()
    } else {
        escape_char(v[0]) + escape_seq(v.subrange(1, v.len() as int))
    }
}

/// Escaping distributes over appending one character.
proof fn lemma_escape_push(v: Seq<char>, c: char)
    ensures
        escape_seq(v.push(c)) == escape_seq(v) + escape_char(c),
    decreases v.len(),
{
    let w = v.push(c);
    if v.len() == 0 {
        assert(w[0] == c);
        assert(w.subrange(1, w.len() as int) =~= Seq::<char>::empty());
        assert(escape_seq(Seq::<char>::empty()) =~= Seq::<char>::empty());
        assert(escape_seq(w) == escape_char(w[0]) + escape_seq(w.subrange(1, w.len() as int)));
        assert(escape_seq(w) =~= escape_char(c));
        assert(escape_seq(v) + escape_char(c) =~= escape_char(c));
    } else {
        assert(w[0] == v[0]);
        assert(w.subrange(1, w.len() as int) =~= v.subrange(1, v.len() as int).push(c));
        lemma_escape_push(v.subrange(1, v.len() as int), c);
        assert(escape_char(v[0]) + (escape_seq(v.subrange(1, v.len() as int)) + escape_char(c))
            =~= (escape_char(v[0]) + escape_seq(v.subrange(1, v.len() as int))) + escape_char(c));
    }
}

/// Escapes a field's text for storage.
fn escape_field(v: &str) -> (r: String)
    ensures
        r@ == escape_seq(v@),
{
    let sl = v.unicode_len();
    let mut out = String::new();
    let mut i: usize = 0;
    while i < sl
        invariant
            i <= sl,
            sl == v@.len(),
            out@ == escape_seq(v@.subrange(0, i as int)),
        decreases sl - i,
    {
        let c = v.get_char(i);
        proof {
            assert(v@.subrange(0, i + 1) =~= v@.subrange(0, i as int).push(v@[i as int]));
            lemma_escape_push(v@.subrange(0, i as int), v@[i as int]);
        }
        if c == '\\' {
            proof {
                reveal_strlit("\\\\");
            }
            out.append("\\\\");
            proof {
                assert(out@ =~= escape_seq(v@.subrange(0, i + 1)));
            }
        } else if c == '\n' {
            proof {
                reveal_strlit("\\n");
            }
            out.append("\\n");
            proof {
                assert(out@ =~= escape_seq(v@.subrange(0, i + 1)));
            }
        } else {
            let piece = v.substring_char(i, i + 1);
            out.append(piece);
            proof {
                assert(piece@ =~= seq![v@[i as int]]);
                assert(out@ =~= escape_seq(v@.subrange(0, i + 1)));
            }
        }
        i = i + 1;
    }
    proof {
        assert(v@.subrange(0, sl as int) =~= v@);
    }
    out
}

/// Unescapes a stored field; the text is returned only when it is
/// exactly the escaping of that text.
fn unescape_field(seg: &str) -> (r: Option<String>)
    ensures
        r matches Some(v) ==> seg@ == escape_seq(v@),
{
    let sl = seg.unicode_len();
    let mut out = String::new();
    let mut i: usize = 0;
    while i < sl
        invariant
            i <= sl,
            sl == seg@.len(),
            seg@.subrange(0, i as int) == escape_seq(out@),
        decreases sl - i,
    {
        let c = seg.get_char(i);
        if c == '\\' {
            if i + 1 >= sl {
                return None;
            }
            let c2 = seg.get_char(i + 1);
            if c2 == '\\' {
                let ghost prev = out@;
                proof {
                    reveal_strlit("\\");
                    lemma_escape_push(prev, '\\');
                    assert(seg@.subrange(0, i + 2) =~= seg@.subrange(0, i as int) + seq![
                        seg@[i as int],
                        seg@[i + 1],
                    ]);
                }
                out.append("\\");
                proof {
                    assert(out@ =~= prev.push('\\'));
                    assert(seg@.subrange(0, i + 2) =~= escape_seq(out@));
                }
            } else if c2 == 'n' {
                let ghost prev = out@;
                proof {
                    reveal_strlit("\n");
                    lemma_escape_push(prev, '\n');
                    assert(seg@.subrange(0, i + 2) =~= seg@.subrange(0, i as int) + seq![
                        seg@[i as int],
                        seg@[i + 1],
                    ]);
                }
                out.append("\n");
                proof {
                    assert(out@ =~= prev.push('\n'));
                    assert(seg@.subrange(0, i + 2) =~= escape_seq(out@));
                }
            } else {
                return None;
            }
            i = i + 2;
        } else if c == '\n' {
            // a bare separator is never part of an escaped field
            return None;
        } else {
            let ghost prev = out@;
            proof {
                lemma_escape_push(prev, seg@[i as int]);
                assert(seg@.subrange(0, i + 1) =~= seg@.subrange(0, i as int).push(
                    seg@[i as int],
                ));
            }
            let piece = seg.substring_char(i, i + 1);
            out.append(piece);
            proof {
                assert(piece@ =~= seq![seg@[i as int]]);
                assert(out@ =~= prev.push(seg@[i as int]));
                assert(seg@.subrange(0, i + 1) =~= escape_seq(out@));
            }
            i = i + 1;
        }
    }
    proof {
        assert(seg@.subrange(0, sl as int) =~= seg@);
    }
    Some(out)
}

/// The stored form of an optional field: `-` for absent, `+` then the
/// escaped text for present.
pub open spec fn opt_field_spec(f: Option<Seq<char>>) -> Seq<char> {
    match f {
        Some(v) => "+"@ + escape_seq(v),
        None => "-"@,
    }
}

/// The stored blob for a credential configuration: the mode tag and the
/// five fields, one per line, with the separator escaped inside fields.
pub open spec fn encode_auth_spec(a: &AuthConfig) -> Seq<char> {
    auth_type_tag(a.auth_type) + ("\n"@ + (opt_field_spec(opt_view(&a.username)) + ("\n"@ + (
    opt_field_spec(opt_view(&a.password)) + ("\n"@ + (opt_field_spec(opt_view(&a.token)) + ("\n"@
        + (opt_field_spec(opt_view(&a.ssh_key_path)) + ("\n"@ + opt_field_spec(
        opt_view(&a.ssh_key_passphrase),
    ))))))))))
}

fn encode_opt_field(f: &Option<String>) -> (r: String)
    ensures
        r@ == opt_field_spec(opt_view(f)),
{
    match f {
        Some(v) => concat2("+", escape_field(v.as_str()).as_str()),
        None => String::from_str("-"),
    }
}

/// Encodes a credential configuration as the stored blob; the
/// separator is escaped inside fields, so every configuration encodes.
pub fn encode_auth_config(a: &AuthConfig) -> (r: String)
    ensures
        r@ == encode_auth_spec(a),
{
    let tag = match a.auth_type {
        AuthType::Password => "P",
        AuthType::Token => "T",
        AuthType::Ssh => "S",
        AuthType::Anonymous => "A",
    };
    let f1 = encode_opt_field(&a.username);
    let f2 = encode_opt_field(&a.password);
    let f3 = encode_opt_field(&a.token);
    let f4 = encode_opt_field(&a.ssh_key_path);
    let f5 = encode_opt_field(&a.ssh_key_passphrase);
    let u5 = concat2("\n", f5.as_str());
    let t4 = concat2(f4.as_str(), u5.as_str());
    let u4 = concat2("\n", t4.as_str());
    let t3 = concat2(f3.as_str(), u4.as_str());
    let u3 = concat2("\n", t3.as_str());
    let t2 = concat2(f2.as_str(), u3.as_str());
    let u2 = concat2("\n", t2.as_str());
    let t1 = concat2(f1.as_str(), u2.as_str());
    let u1 = concat2("\n", t1.as_str());
    concat2(tag, u1.as_str())
}

/// Splits off everything before the first newline; `None` when the text
/// holds no newline.
fn split_first_line(s: &str) -> (r: Option<(String, String)>)
    ensures
        match r {
            Some((line, rest)) => s@ == line@ + ("\n"@ + rest@) && (forall|j: int|
                0 <= j < line@.len() ==> line@[j] != '\n'),
            None => forall|j: int| 0 <= j < s@.len() ==> s@[j] != '\n',
        },
{
    let sl = s.unicode_len();
    match find_char(s, '\n') {
        Some(p) => {
            let line = substring_of(s, 0, p);
            let rest = substring_of(s, p + 1, sl);
            proof {
                reveal_strlit("\n");
                assert(s@ =~= line@ + ("\n"@ + rest@));
            }
            Some((line, rest))
        },
        None => None,
    }
}

fn decode_opt_field(seg: &str) -> (r: Option<Option<String>>)
    ensures
        match r {
            Some(f) => seg@ == opt_field_spec(opt_view(&f)),
            None => true,
        },
{
    let sl = seg.unicode_len();
    if sl == 0 {
        return None;
    }
    let c0 = seg.get_char(0);
    if c0 == '-' {
        if sl == 1 {
            proof {
                reveal_strlit("-");
                assert(seg@ =~= "-"@);
            }
            Some(None)
        } else {
            None
        }
    } else if c0 == '+' {
        let tail = substring_of(seg, 1, sl);
        match unescape_field(tail.as_str()) {
            Some(v) => {
                proof {
                    reveal_strlit("+");
                    assert(seg@ =~= "+"@ + tail@);
                }
                Some(Some(v))
            },
            None => None,
        }
    } else {
        None
    }
}

/// Decodes a stored credential blob; returns the configuration only
/// when the blob is exactly its encoding.
pub fn decode_auth_config(s: &str) -> (r: Option<AuthConfig>)
    ensures
        r matches Some(a) ==> s@ == encode_auth_spec(&a),
{
    let (tag, rest1) = match split_first_line(s) {
        Some(x) => x,
        None => {
            return None;
        },
    };
    let (f1, rest2) = match split_first_line(rest1.as_str()) {
        Some(x) => x,
        None => {
            return None;
        },
    };
    let (f2, rest3) = match split_first_line(rest2.as_str()) {
        Some(x) => x,
        None => {
            return None;
        },
    };
    let (f3, rest4) = match split_first_line(rest3.as_str()) {
        Some(x) => x,
        None => {
            return None;
        },
    };
    let (f4, f5) = match split_first_line(rest4.as_str()) {
        Some(x) => x,
        None => {
            return None;
        },
    };
    match find_char(f5.as_str(), '\n') {
        Some(_) => {
            return None;
        },
        None => {},
    }
    let auth_type = if tag == String::from_str("P") {
        AuthType::Password
    } else if tag == String::from_str("T") {
        AuthType::Token
    } else if tag == String::from_str("S") {
        AuthType::Ssh
    } else if tag == String::from_str("A") {
        AuthType::Anonymous
    } else {
        return None;
    };
    let username = match decode_opt_field(f1.as_str()) {
        Some(f) => f,
        None => {
            return None;
        },
    };
    let password = match decode_opt_field(f2.as_str()) {
        Some(f) => f,
        None => {
            return None;
        },
    };
    let token = match decode_opt_field(f3.as_str()) {
        Some(f) => f,
        None => {
            return None;
        },
    };
    let ssh_key_path = match decode_opt_field(f4.as_str()) {
        Some(f) => f,
        None => {
            return None;
        },
    };
    let ssh_key_passphrase = match decode_opt_field(f5.as_str()) {
        Some(f) => f,
        None => {
            return None;
        },
    };
    let a = AuthConfig {
        auth_type,
        username,
        password,
        token,
        ssh_key_path,
        ssh_key_passphrase,
    };
    proof {
        assert(s@ == encode_auth_spec(&a));
    }
    Some(a)
}

} // verus!
