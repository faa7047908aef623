//! `contract call-function as-transaction`: calls a contract method in a transaction.
use vstd::prelude::*;
use crate::account_id::AccountId;
use crate::context::{CliError, GlobalContext, NearGas, NearToken, ONE_TERAGAS};
use crate::text::{account_id_texts, join_account_ids, joined};
use crate::transaction::{
    Action, ActionContext, ActionContextView, ActionView, BeforeSigning, BeforeSigningView,
    FunctionCallAction, PrepopulatedTransaction, TransactionView,
};

verus! {

/// The arguments of the command: the contract and the function step.
#[derive(Debug, PartialEq, Eq)]
pub struct CallFunction {
    pub contract_account_id: AccountId,
    pub function: Function,
}

/// The command's state once the contract is known.
#[derive(Debug, PartialEq, Eq)]
pub struct CallFunctionContext {
    pub global_context: GlobalContext,
    pub contract_account_id: AccountId,
}

/// The state after the first step.
pub open spec fn call_function_context(previous_context: GlobalContext, scope: CallFunction) -> CallFunctionContext {
    CallFunctionContext {
        global_context: previous_context,
        contract_account_id: scope.contract_account_id,
    }
}

impl CallFunctionContext {
    /// Records the contract.
    pub fn from_previous_context(previous_context: GlobalContext, scope: &CallFunction) -> (r:
        Result<Self, CliError>)
        ensures
            r == Ok::<Self, CliError>(call_function_context(previous_context, *scope)),
    {
        Ok(CallFunctionContext {
            global_context: previous_context,
            contract_account_id: scope.contract_account_id.duplicate(),
        })
    }
}

/// The message given when no contract is named.
pub open spec fn missing_contract_message(known_accounts: Seq<AccountId>) -> Seq<char> {
    "Missing required argument <contract-account-id>. Provide it explicitly to run non-interactively. Known local accounts: "@
        + joined(account_id_texts(known_accounts), ", "@)
}

impl CallFunction {
    /// The contract cannot be asked for: the error lists the accounts used on
    /// this machine, `known_accounts`.
    pub fn input_contract_account_id(
        _context: &GlobalContext,
        known_accounts: &Vec<AccountId>,
    ) -> (r: Result<Option<AccountId>, CliError>)
        ensures
            r matches Err(CliError::MissingArgument(m)) && m@ == missing_contract_message(
                known_accounts@,
            ),
    {
        let known = join_account_ids(known_accounts, ", ");
        let mut message = "Missing required argument <contract-account-id>. Provide it explicitly to run non-interactively. Known local accounts: ".to_string();
        message.append(known.as_str());
        Err(CliError::MissingArgument(message))
    }
}

/// The function step: the method's name, its arguments as typed and the gas step.
#[derive(Debug, PartialEq, Eq)]
pub struct Function {
    pub function_name: String,
    pub function_args: String,
    pub prepaid_gas: PrepaidGas,
}

/// The command's state once the method and its arguments are known.
#[derive(Debug, PartialEq, Eq)]
pub struct FunctionContext {
    pub global_context: GlobalContext,
    pub contract_account_id: AccountId,
    pub function_name: String,
    pub function_args: Vec<u8>,
}

/// The state after the function step, with the arguments as read.
pub open spec fn function_context(
    previous_context: CallFunctionContext,
    scope: Function,
    function_args: Vec<u8>,
) -> FunctionContext {
    FunctionContext {
        global_context: previous_context.global_context,
        contract_account_id: previous_context.contract_account_id,
        function_name: scope.function_name,
        function_args: function_args,
    }
}

impl FunctionContext {
    /// Records the method and its arguments.  `function_args` is what reading
    /// the typed arguments in their declared format gave: its error ends the
    /// command.
    pub fn from_previous_context(
        previous_context: CallFunctionContext,
        scope: &Function,
        function_args: Result<Vec<u8>, CliError>,
    ) -> (r: Result<Self, CliError>)
        ensures
            function_args is Err ==> r is Err && r->Err_0 == function_args->Err_0,
            function_args matches Ok(args) ==> r == Ok::<Self, CliError>(
                function_context(previous_context, *scope, args),
            ),
    {
        let function_args = function_args?;
        Ok(FunctionContext {
            global_context: previous_context.global_context,
            contract_account_id: previous_context.contract_account_id,
            function_name: scope.function_name.clone(),
            function_args,
        })
    }
}

/// The gas step: the gas for the call and the deposit step.
#[derive(Debug, PartialEq, Eq)]
pub struct PrepaidGas {
    pub gas: NearGas,
    pub attached_deposit: Deposit,
}

/// The command's state once the gas is known.
#[derive(Debug, PartialEq, Eq)]
pub struct PrepaidGasContext {
    pub global_context: GlobalContext,
    pub contract_account_id: AccountId,
    pub function_name: String,
    pub function_args: Vec<u8>,
    pub gas: NearGas,
}

/// The state after the gas step.
pub open spec fn prepaid_gas_context(previous_context: FunctionContext, scope: PrepaidGas) -> PrepaidGasContext {
    PrepaidGasContext {
        global_context: previous_context.global_context,
        contract_account_id: previous_context.contract_account_id,
        function_name: previous_context.function_name,
        function_args: previous_context.function_args,
        gas: scope.gas,
    }
}

impl PrepaidGasContext {
    /// Records the gas.
    pub fn from_previous_context(previous_context: FunctionContext, scope: &PrepaidGas) -> (r:
        Result<Self, CliError>)
        ensures
            r == Ok::<Self, CliError>(prepaid_gas_context(previous_context, *scope)),
    {
        Ok(PrepaidGasContext {
            global_context: previous_context.global_context,
            contract_account_id: previous_context.contract_account_id,
            function_name: previous_context.function_name,
            function_args: previous_context.function_args,
            gas: scope.gas,
        })
    }
}

impl PrepaidGas {
    /// Without a value the call gets 100 teragas.
    pub fn input_gas(_context: &FunctionContext) -> (r: Result<Option<NearGas>, CliError>)
        ensures
            r matches Ok(Some(g)) && g.gas == 100 * ONE_TERAGAS,
    {
        Ok(Some(NearGas::from_tgas(100)))
    }
}

/// The deposit step: the tokens attached to the call and the signer step.
#[derive(Debug, PartialEq, Eq)]
pub struct Deposit {
    pub deposit: NearToken,
    pub sign_as: SignerAccountId,
}

/// The command's state once the deposit is known.
#[derive(Debug, PartialEq, Eq)]
pub struct DepositContext {
    pub global_context: GlobalContext,
    pub contract_account_id: AccountId,
    pub function_name: String,
    pub function_args: Vec<u8>,
    pub gas: NearGas,
    pub deposit: NearToken,
}

/// The state after the deposit step.
pub open spec fn deposit_context(previous_context: PrepaidGasContext, scope: Deposit) -> DepositContext {
    DepositContext {
        global_context: previous_context.global_context,
        contract_account_id: previous_context.contract_account_id,
        function_name: previous_context.function_name,
        function_args: previous_context.function_args,
        gas: previous_context.gas,
        deposit: scope.deposit,
    }
}

impl DepositContext {
    /// Records the deposit.
    pub fn from_previous_context(previous_context: PrepaidGasContext, scope: &Deposit) -> (r:
        Result<Self, CliError>)
        ensures
            r == Ok::<Self, CliError>(deposit_context(previous_context, *scope)),
    {
        Ok(DepositContext {
            global_context: previous_context.global_context,
            contract_account_id: previous_context.contract_account_id,
            function_name: previous_context.function_name,
            function_args: previous_context.function_args,
            gas: previous_context.gas,
            deposit: scope.deposit,
        })
    }
}

impl Deposit {
    /// Without a value nothing is attached: 0 NEAR.
    pub fn input_deposit(_context: &PrepaidGasContext) -> (r: Result<Option<NearToken>, CliError>)
        ensures
            r matches Ok(Some(d)) && d.yocto == 0,
    {
        Ok(Some(NearToken::from_near(0)))
    }
}

/// The signer step: the account that signs the call.
#[derive(Debug, PartialEq, Eq)]
pub struct SignerAccountId {
    pub signer_account_id: AccountId,
}

/// The command's final state: everything the call needs.
#[derive(Debug, PartialEq, Eq)]
pub struct SignerAccountIdContext {
    pub global_context: GlobalContext,
    pub contract_account_id: AccountId,
    pub function_name: String,
    pub function_args: Vec<u8>,
    pub gas: NearGas,
    pub deposit: NearToken,
    pub signer_account_id: AccountId,
}

/// The state after the signer step.
pub open spec fn signer_account_id_context(
    previous_context: DepositContext,
    scope: SignerAccountId,
) -> SignerAccountIdContext {
    SignerAccountIdContext {
        global_context: previous_context.global_context,
        contract_account_id: previous_context.contract_account_id,
        function_name: previous_context.function_name,
        function_args: previous_context.function_args,
        gas: previous_context.gas,
        deposit: previous_context.deposit,
        signer_account_id: scope.signer_account_id,
    }
}

impl SignerAccountIdContext {
    /// Records the signer.
    pub fn from_previous_context(previous_context: DepositContext, scope: &SignerAccountId) -> (r:
        Result<Self, CliError>)
        ensures
            r == Ok::<Self, CliError>(signer_account_id_context(previous_context, *scope)),
    {
        Ok(SignerAccountIdContext {
            global_context: previous_context.global_context,
            contract_account_id: previous_context.contract_account_id,
            function_name: previous_context.function_name,
            function_args: previous_context.function_args,
            gas: previous_context.gas,
            deposit: previous_context.deposit,
            signer_account_id: scope.signer_account_id.duplicate(),
        })
    }
}

/// What the call-function command hands over: the signer signs a transaction
/// to the contract with one function call carrying the method, the arguments,
/// the gas and the deposit.
pub open spec fn function_call_action_context(item: SignerAccountIdContext) -> ActionContextView {
    ActionContextView {
        global_context: item.global_context,
        interacting_with_account_ids: seq![item.signer_account_id, item.contract_account_id],
        prepopulated_transaction: TransactionView {
            signer_id: item.signer_account_id,
            receiver_id: item.contract_account_id,
            actions: seq![
                ActionView::FunctionCall {
                    method_name: item.function_name@,
                    args: item.function_args@,
                    gas: item.gas.gas,
                    deposit: item.deposit.yocto,
                },
            ],
        },
        on_before_signing: BeforeSigningView::KeepActions,
        sign_as_delegate_action: false,
    }
}

impl SignerAccountId {
    /// The signer cannot be asked for: the error lists the accounts used on
    /// this machine, `known_accounts`.
    pub fn input_signer_account_id(
        _context: &DepositContext,
        known_accounts: &Vec<AccountId>,
    ) -> (r: Result<Option<AccountId>, CliError>)
        ensures
            r matches Err(CliError::MissingArgument(m)) && m@ == missing_signer_message(
                known_accounts@,
            ),
    {
        let known = join_account_ids(known_accounts, ", ");
        let mut message = "Missing required argument <signer-account-id>. Provide it explicitly to run non-interactively. Known local accounts: ".to_string();
        message.append(known.as_str());
        Err(CliError::MissingArgument(message))
    }
}

/// The message given when no signer is named.
pub open spec fn missing_signer_message(known_accounts: Seq<AccountId>) -> Seq<char> {
    "Missing required argument <signer-account-id>. Provide it explicitly to run non-interactively. Known local accounts: "@
        + joined(account_id_texts(known_accounts), ", "@)
}

impl ActionContext {
    /// The transaction that calls the function.
    pub fn from_signer_account_id_context(item: SignerAccountIdContext) -> (r: ActionContext)
        ensures
            r@ == function_call_action_context(item),
    {
        let ghost spec_item = item;
        let call = FunctionCallAction {
            method_name: item.function_name,
            args: item.function_args,
            gas: item.gas.as_gas(),
            deposit: item.deposit.as_yoctonear(),
        };
        let r = ActionContext {
            global_context: item.global_context,
            interacting_with_account_ids: vec![
                item.signer_account_id.duplicate(),
                item.contract_account_id.duplicate(),
            ],
            prepopulated_transaction: PrepopulatedTransaction {
                signer_id: item.signer_account_id,
                receiver_id: item.contract_account_id,
                actions: vec![Action::FunctionCall(Box::new(call))],
            },
            on_before_signing: BeforeSigning::KeepActions,
            sign_as_delegate_action: false,
        };
        assert(r@.interacting_with_account_ids =~= seq![
            spec_item.signer_account_id,
            spec_item.contract_account_id,
        ]);
        assert(r@.prepopulated_transaction.actions =~= function_call_action_context(
            spec_item,
        ).prepopulated_transaction.actions);
        r
    }
}

} // verus!
