use vstd::prelude::*;

verus! {

/// Mathematical value of a finished configuration: each text field as its
/// sequence of characters, each credential as an optional sequence.
pub struct ConfigModel {
    pub name: Seq<char>,
    pub region: Seq<char>,
    pub account: Seq<char>,
    pub access_key: Option<Seq<char>>,
    pub secret_key: Option<Seq<char>>,
}

/// Mathematical value of a builder: every field optional, `None` meaning
/// "left unset, to be filled with its default on finalization".
pub struct BuilderModel {
    pub name: Option<Seq<char>>,
    pub region: Option<Seq<char>>,
    pub account: Option<Seq<char>>,
    pub access_key: Option<Seq<char>>,
    pub secret_key: Option<Seq<char>>,
}

/// Default name of the configuration file.
pub open spec fn default_name() -> Seq<char> {
    "infini.config"@
}

/// Default AWS region.
pub open spec fn default_region() -> Seq<char> {
    "us-east-1"@
}

/// Default AWS account ID: empty.
pub open spec fn default_account() -> Seq<char> {
    ""@
}

/// The configuration that a builder with nothing set finalizes to:
/// documented defaults for the text fields, credentials absent.
pub open spec fn default_config() -> ConfigModel {
    ConfigModel {
        name: default_name(),
        region: default_region(),
        account: default_account(),
        access_key: None,
        secret_key: None,
    }
}

/// The character content of an optional string.
pub open spec fn opt_view(o: Option<String>) -> Option<Seq<char>> {
    match o {
        Some(s) => Some(s@),
        None => None,
    }
}

impl BuilderModel {
    /// A builder with every field unset.
    pub open spec fn empty() -> BuilderModel {
        BuilderModel {
            name: None,
            region: None,
            account: None,
            access_key: None,
            secret_key: None,
        }
    }

    /// The builder after a name write: only the name changes.
    pub open spec fn with_name(self, n: Seq<char>) -> BuilderModel {
        BuilderModel {
            name: Some(n),
            region: self.region,
            account: self.account,
            access_key: self.access_key,
            secret_key: self.secret_key,
        }
    }

    /// The builder after a region write: only the region changes.
    pub open spec fn with_region(self, r: Seq<char>) -> BuilderModel {
        BuilderModel {
            name: self.name,
            region: Some(r),
            account: self.account,
            access_key: self.access_key,
            secret_key: self.secret_key,
        }
    }

    /// The builder after an account write: only the account changes.
    pub open spec fn with_account(self, a: Seq<char>) -> BuilderModel {
        BuilderModel {
            name: self.name,
            region: self.region,
            account: Some(a),
            access_key: self.access_key,
            secret_key: self.secret_key,
        }
    }

    /// Finalization: every unset field takes its documented default;
    /// the (never settable) credentials pass through unchanged.
    pub open spec fn finalize(self) -> ConfigModel {
        ConfigModel {
            name: if self.name is Some { self.name->0 } else { default_name() },
            region: if self.region is Some { self.region->0 } else { default_region() },
            account: if self.account is Some { self.account->0 } else { default_account() },
            access_key: self.access_key,
            secret_key: self.secret_key,
        }
    }
}

/// An immutable record of name/region/account/credentials.
pub struct InfiniConfig {
    /// The name of the configuration file.
    pub name: String,

    /// The AWS region to use.
    pub region: String,

    /// The AWS account ID to use.
    pub account: String,

    /// The AWS access key ID to use.
    pub access_key: Option<String>,

    /// The AWS secret key to use.
    pub secret_key: Option<String>,
}

impl View for InfiniConfig {
    type V = ConfigModel;

    open spec fn view(&self) -> ConfigModel {
        ConfigModel {
            name: self.name@,
            region: self.region@,
            account: self.account@,
            access_key: opt_view(self.access_key),
            secret_key: opt_view(self.secret_key),
        }
    }
}

impl InfiniConfig {
    /// The default configuration, directly.
    #[allow(dead_code)]
    fn new() -> (r: InfiniConfig)
        ensures
            r@ == default_config(),
    {
        InfiniConfig {
            name: "infini.config".to_string(),
            region: "us-east-1".to_string(),
            account: "".to_string(),
            access_key: None,
            secret_key: None,
        }
    }
}

/// Accumulates optional overrides; finalization substitutes defaults.
///
/// Storage for the credentials exists, but no setter populates them: the
/// asymmetry is part of the interface and is kept deliberately.
#[derive(Debug)]
pub struct InfiniConfigBuilder {
    /// The name of the configuration file.
    name: Option<String>,
    /// The AWS region to use.
    region: Option<String>,
    /// The AWS account ID to use.
    account: Option<String>,
    /// The AWS access key ID to use.
    access_key: Option<String>,
    /// The AWS secret key to use.
    secret_key: Option<String>,
}

impl View for InfiniConfigBuilder {
    type V = BuilderModel;

    closed spec fn view(&self) -> BuilderModel {
        BuilderModel {
            name: opt_view(self.name),
            region: opt_view(self.region),
            account: opt_view(self.account),
            access_key: opt_view(self.access_key),
            secret_key: opt_view(self.secret_key),
        }
    }
}

impl Default for InfiniConfigBuilder {
    /// A builder with every field unset.
    fn default() -> (r: InfiniConfigBuilder)
        ensures
            r@ == BuilderModel::empty(),
    {
        InfiniConfigBuilder {
            name: None,
            region: None,
            account: None,
            access_key: None,
            secret_key: None,
        }
    }
}

impl InfiniConfigBuilder {
    /// Create a new builder.
    pub fn new() -> (r: InfiniConfigBuilder)
        ensures
            r@ == BuilderModel::empty(),
    {
        InfiniConfigBuilder::default()
    }

    /// Set the name of the configuration file.
    pub fn name(self, name: String) -> (r: InfiniConfigBuilder)
        ensures
            r@ == self@.with_name(name@),
    {
        InfiniConfigBuilder { name: Some(name), ..self }
    }

    /// Set the AWS region to use.
    pub fn region(self, region: String) -> (r: InfiniConfigBuilder)
        ensures
            r@ == self@.with_region(region@),
    {
        InfiniConfigBuilder { region: Some(region), ..self }
    }

    /// Set the AWS account ID to use.
    pub fn account(self, account: String) -> (r: InfiniConfigBuilder)
        ensures
            r@ == self@.with_account(account@),
    {
        InfiniConfigBuilder { account: Some(account), ..self }
    }

    /// Build the configuration, substituting the documented default for
    /// any field left unset. Finalization consumes the builder and
    /// cannot fail.
    pub fn build(self) -> (r: InfiniConfig)
        ensures
            r@ == self@.finalize(),
    {
        let InfiniConfigBuilder { name, region, account, access_key, secret_key } = self;
        InfiniConfig {
            name: match name {
                Some(n) => n,
                None => "infini.config".to_string(),
            },
            region: match region {
                Some(r) => r,
                None => "us-east-1".to_string(),
            },
            account: match account {
                Some(a) => a,
                None => "".to_string(),
            },
            access_key,
            secret_key,
        }
    }
}

/// Law: a builder with no overrides finalizes to the documented defaults:
/// name "infini.config", region "us-east-1", empty account, absent
/// credentials.
pub proof fn lemma_finalize_defaults()
    ensures
        BuilderModel::empty().finalize() == default_config(),
{
}

/// Law: a builder given a name and a region, with the account left unset,
/// finalizes to exactly those two values and the default (empty) account.
pub proof fn lemma_finalize_explicit(b: BuilderModel, n: Seq<char>, r: Seq<char>)
    requires
        b.account is None,
    ensures
        b.with_name(n).with_region(r).finalize().name == n,
        b.with_name(n).with_region(r).finalize().region == r,
        b.with_name(n).with_region(r).finalize().account == default_account(),
{
}

/// Law: the last name written wins: setting the name twice is the same as
/// setting it once with the second value.
pub proof fn lemma_name_last_wins(b: BuilderModel, first: Seq<char>, second: Seq<char>)
    ensures
        b.with_name(first).with_name(second) == b.with_name(second),
{
}

/// Law: the last region written wins.
pub proof fn lemma_region_last_wins(b: BuilderModel, first: Seq<char>, second: Seq<char>)
    ensures
        b.with_region(first).with_region(second) == b.with_region(second),
{
}

/// Law: the last account written wins.
pub proof fn lemma_account_last_wins(b: BuilderModel, first: Seq<char>, second: Seq<char>)
    ensures
        b.with_account(first).with_account(second) == b.with_account(second),
{
}

/// Law: writes to distinct fields commute: the order of chained setters
/// does not matter, only the last value written to each field does.
pub proof fn lemma_setters_commute(b: BuilderModel, n: Seq<char>, r: Seq<char>, a: Seq<char>)
    ensures
        b.with_name(n).with_region(r) == b.with_region(r).with_name(n),
        b.with_name(n).with_account(a) == b.with_account(a).with_name(n),
        b.with_region(r).with_account(a) == b.with_account(a).with_region(r),
{
}

} // verus!
