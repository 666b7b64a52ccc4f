use vstd::prelude::*;
use crate::error::ContractError;
use crate::msg::{Cw20ReceiveMsg, TransferNotice, TransferNoticeView};

verus! {

/// Accepts a notification that `cw20_msg.sender` transferred tokens of the
/// contract `sender` to the platform, and hands back its record. Nothing is
/// stored and no notification is refused.
pub fn receive_cw20(sender: &String, cw20_msg: Cw20ReceiveMsg) -> (result: Result<TransferNotice, ContractError>)
    ensures
        result matches Ok(notice) && notice@ == (TransferNoticeView {
            sender: cw20_msg.sender@,
            amount: cw20_msg.amount,
            from_contract: sender@,
        }),
{
    Ok(TransferNotice { sender: cw20_msg.sender, amount: cw20_msg.amount, from_contract: sender.clone() })
}

} // verus!
