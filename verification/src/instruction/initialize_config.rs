//! Create the global config account; the payer becomes the authority.
use crate::codec::{address_eq, Address};
use crate::error::ProcessError;
use crate::pda::{spec_find_program_address, spec_system_program_id, system_program_id};
use crate::processor::{
    answers, spec_check_address, verify_program_address, with_bump_seed, AccountInfo, AccountWrite, Invocation,
    InvocationView, Outcome, OutcomeView,
};
use crate::state::config::{new_config_account, spec_config_seeds, Config, CONFIG_SPACE};
use vstd::prelude::*;

verus! {

/// The rules of `InitializeConfig`.
///
/// Accounts: `[config (w), payer (s/w), system_program]`; no data.  The
/// config account is created at the address derived from `["config"]` and
/// records the payer as the authority.
pub open spec fn initialize_config_rules(program_id: Address, accounts: Seq<AccountInfo>) -> Result<
    OutcomeView,
    ProcessError,
> {
    if accounts.len() != 3 {
        Err(ProcessError::NotEnoughAccountKeys)
    } else if !accounts[1].is_signer {
        Err(ProcessError::MissingRequiredSignature)
    } else if accounts[2].address@ != spec_system_program_id() {
        Err(ProcessError::IncorrectProgramId)
    } else {
        match spec_check_address(
            spec_find_program_address(spec_config_seeds(), program_id@),
            accounts[0].address@,
        ) {
            Err(e) => Err(e),
            Ok(bump) => Ok(
                OutcomeView {
                    invocations: seq![
                        InvocationView::CreateAccount {
                            payer: 1,
                            account: 0,
                            space: CONFIG_SPACE as u64,
                            signer_seeds: spec_config_seeds().push(seq![bump]),
                        },
                    ],
                    writes: seq![
                        (0usize, new_config_account(Config { authority: accounts[1].address })),
                    ],
                    failure: None,
                },
            ),
        }
    }
}

/// Processes `InitializeConfig`.
pub fn process_initialize_config(program_id: &Address, accounts: &[AccountInfo]) -> (r: Result<
    Outcome,
    ProcessError,
>)
    ensures
        answers(r, initialize_config_rules(*program_id, accounts@)),
{
    if accounts.len() != 3 {
        return Err(ProcessError::NotEnoughAccountKeys);
    }
    let config_view = &accounts[0];
    let payer_view = &accounts[1];
    let system_program_view = &accounts[2];
    if !payer_view.is_signer {
        return Err(ProcessError::MissingRequiredSignature);
    }
    let system_program = system_program_id();
    if !address_eq(&system_program_view.address, &system_program) {
        return Err(ProcessError::IncorrectProgramId);
    }
    let found = Config::find_program_address(program_id);
    let (config_bump, config_seeds) = verify_program_address(found, &config_view.address)?;
    let ghost seeds_view = config_seeds.deep_view();
    let config_seeds = with_bump_seed(config_seeds, config_bump);
    let config = Config { authority: payer_view.address };
    let config_data = config.to_account_data();
    let create = Invocation::CreateAccount {
        payer: 1,
        account: 0,
        space: CONFIG_SPACE as u64,
        signer_seeds: config_seeds,
    };
    let invocations = vec![create];
    let writes = vec![AccountWrite { account: 0, data: config_data }];
    let out = Outcome { invocations, writes, failure: None };
    assert(out@.writes =~= seq![(0usize, new_config_account(config))]);
    assert(out@.invocations =~= seq![
        InvocationView::CreateAccount {
            payer: 1,
            account: 0,
            space: CONFIG_SPACE as u64,
            signer_seeds: seeds_view.push(seq![config_bump]),
        },
    ]);
    Ok(out)
}

} // verus!
