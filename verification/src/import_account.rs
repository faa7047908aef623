//! `account import-account`: records an existing account and its access key on
//! this machine.  The login asks for the account ID, checks on the network that
//! the key belongs to the account and may ask again; the decisions are made
//! here, step by step, and the caller does the asking, checking and saving.
use vstd::prelude::*;
use crate::account_id::{AccountId, AccountType, account_type_of, hex_decoded, is_valid_account_id};
use crate::context::CliError;
use crate::public_key::{KeyType, PublicKey, base58_text, key_type_name, parsed_public_key};
use crate::text::{ascii_lowercase, to_ascii_lowercase, trim, trimmed};

verus! {

/// The ways to import an account.
#[derive(Clone, Copy, Debug, PartialEq, Eq, Structural)]
pub enum ImportAccountActions {
    /// Import existing account using NEAR Wallet (a.k.a. "sign in")
    UsingWebWallet,
    /// Import existing account using a seed phrase
    UsingSeedPhrase,
    /// Import existing account using a private key
    UsingPrivateKey,
}

/// The menu line of each way to import an account.
pub open spec fn import_action_message(action: ImportAccountActions) -> Seq<char> {
    match action {
        ImportAccountActions::UsingWebWallet => "using-web-wallet          - Import existing account using NEAR Wallet (a.k.a. \"sign in\")"@,
        ImportAccountActions::UsingSeedPhrase => "using-seed-phrase         - Import existing account using a seed phrase"@,
        ImportAccountActions::UsingPrivateKey => "using-private-key         - Import existing account using a private key"@,
    }
}

impl ImportAccountActions {
    /// The menu line of this way to import an account.
    pub fn get_message(&self) -> (r: Option<&'static str>)
        ensures
            r matches Some(m) && m@ == import_action_message(*self),
    {
        match self {
            ImportAccountActions::UsingWebWallet => Some(
                "using-web-wallet          - Import existing account using NEAR Wallet (a.k.a. \"sign in\")",
            ),
            ImportAccountActions::UsingSeedPhrase => Some(
                "using-seed-phrase         - Import existing account using a seed phrase",
            ),
            ImportAccountActions::UsingPrivateKey => Some(
                "using-private-key         - Import existing account using a private key",
            ),
        }
    }

    /// All ways to import an account, in menu order.
    pub fn iter() -> (r: Vec<ImportAccountActions>)
        ensures
            r@ == seq![
                ImportAccountActions::UsingWebWallet,
                ImportAccountActions::UsingSeedPhrase,
                ImportAccountActions::UsingPrivateKey,
            ],
    {
        let r = vec![
            ImportAccountActions::UsingWebWallet,
            ImportAccountActions::UsingSeedPhrase,
            ImportAccountActions::UsingPrivateKey,
        ];
        assert(r@ =~= seq![
            ImportAccountActions::UsingWebWallet,
            ImportAccountActions::UsingSeedPhrase,
            ImportAccountActions::UsingPrivateKey,
        ]);
        r
    }
}

/// The arguments of the command: how to import the account.
#[derive(Debug, PartialEq, Eq)]
pub struct ImportAccountCommand {
    pub import_account_actions: ImportAccountActions,
}

/// Reads an account ID as typed on a line: the line without surrounding white
/// space must be a valid account ID.
pub fn account_id_from_input(line: &str) -> (r: Result<AccountId, CliError>)
    ensures
        r is Ok <==> is_valid_account_id(trimmed(line@)),
        r matches Ok(id) ==> id@ == trimmed(line@),
        r matches Err(e) ==> e is InvalidAccountId,
{
    match AccountId::parse(trim(line)) {
        Ok(id) => Ok(id),
        Err(e) => Err(CliError::InvalidAccountId(e)),
    }
}

/// Whether an answer to "Re-enter account_id? [y/N]" asks to re-enter: after
/// trimming and ASCII-lower-casing it is `y` or `yes`.
pub open spec fn is_yes_answer(line: Seq<char>) -> bool {
    let a = ascii_lowercase(trimmed(line));
    a == "y"@ || a == "yes"@
}

/// Reads the answer to "Re-enter account_id? [y/N]".
pub fn is_retry_answer(line: &str) -> (r: bool)
    ensures
        r == is_yes_answer(line@),
{
    let answer = to_ascii_lowercase(trim(line));
    answer == "y".to_string() || answer == "yes".to_string()
}

/// Whether the value of the legacy-keychain setting asks for the legacy
/// keychain: ASCII-lower-cased it is `1`, `true` or `yes`.
pub open spec fn asks_for_legacy_keychain(value: Seq<char>) -> bool {
    let v = ascii_lowercase(value);
    v == "1"@ || v == "true"@ || v == "yes"@
}

/// Reads the value of the legacy-keychain setting (empty when it is not set):
/// whether the access key goes to the legacy keychain only.
pub fn use_legacy_keychain(value: &str) -> (r: bool)
    ensures
        r == asks_for_legacy_keychain(value@),
{
    let v = to_ascii_lowercase(value);
    v == "1".to_string() || v == "true".to_string() || v == "yes".to_string()
}

/// The note added when saving the key to the legacy keychain fails.
pub fn save_failure_message(public_key_str: &str) -> (r: String)
    ensures
        r@ == "Failed to save a file with access key: "@ + public_key_str@,
{
    let mut message = "Failed to save a file with access key: ".to_string();
    message.append(public_key_str);
    message
}

/// The text form of the key of a NEAR-implicit account ID; none for other accounts.
pub open spec fn implicit_key_text(account_id: Seq<char>) -> Option<Seq<char>> {
    if account_type_of(account_id) == AccountType::NearImplicitAccount {
        Some(key_type_name(KeyType::Ed25519) + ":"@ + base58_text(hex_decoded(account_id)))
    } else {
        None
    }
}

/// Whether an account is taken without asking the network: it is
/// NEAR-implicit and its key's text form is the key being imported.
pub open spec fn accepted_as_implicit(implicit_key_text: Option<Seq<char>>, public_key_str: Seq<char>) -> bool {
    implicit_key_text matches Some(t) && t == public_key_str
}

/// The outcome of looking up the access key on the network.
#[derive(Clone, Copy, Debug, PartialEq, Eq, Structural)]
pub enum AccessKeyCheck {
    /// The account has the key.
    Found,
    /// The user cancelled the lookup.
    Cancelled,
    /// The lookup failed or the account does not have the key.
    Failed,
}

/// Where the login stands.
#[derive(Debug, PartialEq, Eq)]
pub enum LoginStage {
    /// Waiting for the account ID to be typed.
    AwaitingAccountId,
    /// Waiting for the network to tell whether this account has the key.
    AwaitingAccessKeyCheck(AccountId),
    /// Waiting for the answer whether to type the account ID again.
    AwaitingRetryAnswer(AccountId),
    /// Done: no more steps.
    Finished,
}

/// What the caller does next.
#[derive(Debug)]
pub enum LoginAction {
    /// Ask for the account ID ("Enter account ID:") and hand over the line.
    ReadAccountId,
    /// Check on the network whether the account has this access key.
    VerifyAccessKey { account_id: AccountId, public_key: PublicKey },
    /// Log this warning, ask "Re-enter account_id? [y/N]" and hand over the answer.
    WarnAndAskRetry { message: String },
    /// Record the account as a signer and save its access key: the login succeeded.
    SaveAccessKey { account_id: AccountId },
    /// The login failed with this error.
    Fail(CliError),
}

/// The login of an account with a key pair.
#[derive(Debug)]
pub struct LoginFlow {
    /// The key being imported, as given.
    pub public_key_str: String,
    /// The key being imported.
    pub public_key: PublicKey,
    /// The warning to give when the account does not have the key.
    pub error_message: String,
    pub stage: LoginStage,
}

/// The login's fixed parts are the same in `a` and `b`.
pub open spec fn same_login(a: LoginFlow, b: LoginFlow) -> bool {
    &&& a.public_key_str == b.public_key_str
    &&& a.public_key@ == b.public_key@
    &&& a.error_message == b.error_message
}

impl LoginFlow {
    /// Starts the login: reads the key being imported and asks for the account ID.
    pub fn start(public_key_str: &str, error_message: &str) -> (r: Result<
        (LoginFlow, LoginAction),
        CliError,
    >)
        ensures
            r is Ok <==> parsed_public_key(public_key_str@) is Some,
            r matches Err(e) ==> e is InvalidPublicKey,
            r matches Ok((flow, action)) ==> {
                &&& flow.public_key_str@ == public_key_str@
                &&& parsed_public_key(public_key_str@) == Some(flow.public_key@)
                &&& flow.error_message@ == error_message@
                &&& flow.stage is AwaitingAccountId
                &&& action is ReadAccountId
            },
    {
        match PublicKey::parse(public_key_str) {
            Ok(public_key) => Ok(
                (
                    LoginFlow {
                        public_key_str: public_key_str.to_string(),
                        public_key,
                        error_message: error_message.to_string(),
                        stage: LoginStage::AwaitingAccountId,
                    },
                    LoginAction::ReadAccountId,
                ),
            ),
            Err(e) => Err(CliError::InvalidPublicKey(e)),
        }
    }

    /// Takes a valid account ID.  `implicit_key_text` is the text form of the
    /// account's key when the account is NEAR-implicit: when it is the key being
    /// imported the account is taken at once; otherwise the network is asked.
    pub fn accept_account_id(&mut self, account_id: AccountId, implicit_key_text: Option<String>) -> (a:
        LoginAction)
        requires
            old(self).stage is AwaitingAccountId,
        ensures
            same_login(*final(self), *old(self)),
            accepted_as_implicit(
                match implicit_key_text {
                    Some(t) => Some(t@),
                    None => None,
                },
                old(self).public_key_str@,
            ) ==> a == (LoginAction::SaveAccessKey { account_id }) && final(self).stage is Finished,
            !accepted_as_implicit(
                match implicit_key_text {
                    Some(t) => Some(t@),
                    None => None,
                },
                old(self).public_key_str@,
            ) ==> (a matches LoginAction::VerifyAccessKey { account_id: id, public_key: key }
                && id == account_id && key@ == old(self).public_key@) && final(self).stage
                == LoginStage::AwaitingAccessKeyCheck(account_id),
    {
        let accepted = match &implicit_key_text {
            Some(t) => *t == self.public_key_str,
            None => false,
        };
        if accepted {
            self.stage = LoginStage::Finished;
            LoginAction::SaveAccessKey { account_id }
        } else {
            let action = LoginAction::VerifyAccessKey {
                account_id: account_id.duplicate(),
                public_key: self.public_key.duplicate(),
            };
            self.stage = LoginStage::AwaitingAccessKeyCheck(account_id);
            action
        }
    }

    /// Takes the line typed as the account ID: an invalid ID ends the login; a
    /// NEAR-implicit account whose key is the key being imported is taken at
    /// once; any other account is looked up on the network.
    pub fn on_account_id_line(&mut self, line: &str) -> (a: LoginAction)
        requires
            old(self).stage is AwaitingAccountId,
        ensures
            same_login(*final(self), *old(self)),
            !is_valid_account_id(trimmed(line@)) ==> (a matches LoginAction::Fail(e)
                && e is InvalidAccountId) && final(self).stage is Finished,
            is_valid_account_id(trimmed(line@)) && accepted_as_implicit(
                implicit_key_text(trimmed(line@)),
                old(self).public_key_str@,
            ) ==> (a matches LoginAction::SaveAccessKey { account_id } && account_id@ == trimmed(
                line@,
            )) && final(self).stage is Finished,
            is_valid_account_id(trimmed(line@)) && !accepted_as_implicit(
                implicit_key_text(trimmed(line@)),
                old(self).public_key_str@,
            ) ==> (a matches LoginAction::VerifyAccessKey { account_id, public_key }
                && account_id@ == trimmed(line@) && public_key@ == old(self).public_key@
                && final(self).stage == LoginStage::AwaitingAccessKeyCheck(account_id)),
    {
        match account_id_from_input(line) {
            Err(e) => {
                self.stage = LoginStage::Finished;
                LoginAction::Fail(e)
            },
            Ok(account_id) => {
                let implicit_key_text = match PublicKey::from_near_implicit_account(&account_id) {
                    Some(key) => Some(key.to_text()),
                    None => None,
                };
                self.accept_account_id(account_id, implicit_key_text)
            },
        }
    }

    /// Takes the outcome of the network lookup: a found key ends the login
    /// successfully, a cancelled lookup ends it with an error, and a failed one
    /// gives the warning and asks whether to type the account ID again.
    pub fn on_access_key_check(&mut self, check: AccessKeyCheck) -> (a: LoginAction)
        requires
            old(self).stage is AwaitingAccessKeyCheck,
        ensures
            same_login(*final(self), *old(self)),
            check == AccessKeyCheck::Found ==> a == (LoginAction::SaveAccessKey {
                account_id: old(self).stage->AwaitingAccessKeyCheck_0,
            }) && final(self).stage is Finished,
            check == AccessKeyCheck::Cancelled ==> (a matches LoginAction::Fail(e)
                && e is AccessKeyCheckCancelled) && final(self).stage is Finished,
            check == AccessKeyCheck::Failed ==> (a matches LoginAction::WarnAndAskRetry { message }
                && message == old(self).error_message) && final(self).stage
                == LoginStage::AwaitingRetryAnswer(old(self).stage->AwaitingAccessKeyCheck_0),
    {
        let mut stage = LoginStage::Finished;
        std::mem::swap(&mut stage, &mut self.stage);
        let account_id = match stage {
            LoginStage::AwaitingAccessKeyCheck(account_id) => account_id,
            _ => {
                assert(false);
                return LoginAction::ReadAccountId;
            },
        };
        match check {
            AccessKeyCheck::Found => LoginAction::SaveAccessKey { account_id },
            AccessKeyCheck::Cancelled => LoginAction::Fail(CliError::AccessKeyCheckCancelled),
            AccessKeyCheck::Failed => {
                self.stage = LoginStage::AwaitingRetryAnswer(account_id);
                LoginAction::WarnAndAskRetry { message: self.error_message.clone() }
            },
        }
    }

    /// Takes the answer whether to type the account ID again: `y` or `yes`
    /// asks for it again; any other answer takes the account as it is.
    pub fn on_retry_answer(&mut self, line: &str) -> (a: LoginAction)
        requires
            old(self).stage is AwaitingRetryAnswer,
        ensures
            same_login(*final(self), *old(self)),
            is_yes_answer(line@) ==> a is ReadAccountId && final(self).stage is AwaitingAccountId,
            !is_yes_answer(line@) ==> a == (LoginAction::SaveAccessKey {
                account_id: old(self).stage->AwaitingRetryAnswer_0,
            }) && final(self).stage is Finished,
    {
        let mut stage = LoginStage::Finished;
        std::mem::swap(&mut stage, &mut self.stage);
        let account_id = match stage {
            LoginStage::AwaitingRetryAnswer(account_id) => account_id,
            _ => {
                assert(false);
                return LoginAction::ReadAccountId;
            },
        };
        if is_retry_answer(line) {
            self.stage = LoginStage::AwaitingAccountId;
            LoginAction::ReadAccountId
        } else {
            LoginAction::SaveAccessKey { account_id }
        }
    }
}

} // verus!
