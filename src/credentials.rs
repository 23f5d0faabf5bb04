use vstd::prelude::*;

verus! {

/// A credential saved by the user interface, with the time it was saved.
#[derive(Debug)]
pub struct UserCredential {
    pub password: String,
    pub saved_at: i64,
}

/// Length of a generated vault password.
pub const PASSWORD_LEN: usize = 32;

/// An ASCII letter or digit.
pub open spec fn is_alphanumeric(c: char) -> bool {
    ('a' <= c && c <= 'z') || ('A' <= c && c <= 'Z') || ('0' <= c && c <= '9')
}

/// Relies on rand's `Alphanumeric` distribution, sampled from `thread_rng`
/// `len` times: each sample is one of the 62 bytes `A-Z`, `a-z`, `0-9`,
/// taken as a character.
#[verifier::external_body]
fn sample_alphanumeric(len: usize) -> (r: String)
    ensures
        r@.len() == len,
        forall|i: int| 0 <= i < len ==> is_alphanumeric(#[trigger] r@[i]),
{
    rand::Rng::sample_iter(rand::thread_rng(), rand::distributions::Alphanumeric).take(len).map(
        char::from,
    ).collect::<String>()
}

/// A fresh random password of [`PASSWORD_LEN`] ASCII letters and digits.
pub fn generate_password() -> (r: String)
    ensures
        r@.len() == PASSWORD_LEN,
        forall|i: int| 0 <= i < r@.len() ==> is_alphanumeric(#[trigger] r@[i]),
{
    sample_alphanumeric(PASSWORD_LEN)
}

/// What to do after the platform keyring has been read.
#[derive(Debug)]
pub enum SecretStep {
    /// The password to hand out.
    Ready(String),
    /// Nothing usable was stored: store this new password in the keyring,
    /// then pass it to [`VaultSecret::after_store`].
    StoreNew(String),
}

/// The vault password of this process: fetched from the platform keyring,
/// or created and stored there, once. The first value that is fetched or
/// stored wins; every later request gets that value.
#[derive(Debug)]
pub struct VaultSecret {
    value: Option<String>,
}

impl View for VaultSecret {
    type V = Option<Seq<char>>;

    closed spec fn view(&self) -> Option<Seq<char>> {
        match self.value {
            Some(s) => Some(s@),
            None => None,
        }
    }
}

impl VaultSecret {
    /// A secret that has not been fetched yet.
    pub fn new() -> (r: VaultSecret)
        ensures
            r@ is None,
    {
        VaultSecret { value: None }
    }

    /// The password, once it has been fetched or stored.
    pub fn cached(&self) -> (r: Option<String>)
        ensures
            match r {
                Some(s) => self@ == Some(s@),
                None => self@ is None,
            },
    {
        match &self.value {
            Some(s) => Some(s.clone()),
            None => None,
        }
    }

    /// Decides what follows a read of the keyring, which found `stored`
    /// (`None` when the read failed or found nothing). A password that is
    /// already held is kept and handed out; else a found password is kept and
    /// handed out; else a new one is generated, to be stored.
    pub fn after_lookup(&mut self, stored: Option<String>) -> (r: SecretStep)
        ensures
            match old(self)@ {
                Some(v) => final(self)@ == old(self)@ && r is Ready && r->Ready_0@ == v,
                None => match stored {
                    Some(p) => final(self)@ == Some(p@) && r is Ready && r->Ready_0@ == p@,
                    None => {
                        &&& final(self)@ is None
                        &&& r is StoreNew
                        &&& r->StoreNew_0@.len() == PASSWORD_LEN
                        &&& forall|i: int|
                            0 <= i < PASSWORD_LEN ==> is_alphanumeric(
                                #[trigger] r->StoreNew_0@[i],
                            )
                    },
                },
            },
    {
        match &self.value {
            Some(v) => {
                return SecretStep::Ready(v.clone());
            },
            None => {},
        }
        match stored {
            Some(p) => {
                self.value = Some(p.clone());
                SecretStep::Ready(p)
            },
            None => SecretStep::StoreNew(generate_password()),
        }
    }

    /// Records that `password` was stored in the keyring and returns the
    /// password to hand out: the one already held, if any, else `password`.
    pub fn after_store(&mut self, password: String) -> (r: String)
        ensures
            final(self)@ == (match old(self)@ {
                Some(v) => Some(v),
                None => Some(password@),
            }),
            final(self)@ == Some(r@),
    {
        match &self.value {
            Some(v) => v.clone(),
            None => {
                self.value = Some(password.clone());
                password
            },
        }
    }
}

} // verus!
