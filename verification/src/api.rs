//! The request-level operations behind the service's endpoints: pricing a
//! request against an account's balance, reading a balance, validating a
//! store purchase, and applying a polled provider status to a job.

use vstd::prelude::*;
use vstd::string::StringExecFns;
use crate::credits::add_credits;
use crate::errors::AppError;
use crate::ledger::ledger_entry_applied;
use crate::models::{
    BalanceResponse, EstimateResponse, RevenueCatValidateResponse, TransactionKind, VideoStatus,
};
use crate::pricing::{
    calculate_credits, credits_to_usd, spec_credits, spec_model_ok, spec_seconds_ok, spec_size_ok,
    usd_string, validate_video_params, STARTER_PACK_CREDITS,
};
use crate::store::{opt_str_view, same_store, Store};
use crate::strutil::{dec_int, str_eq};
use crate::urls::{build_proxy_url, spec_proxy_url};
use crate::videos::{only_videos_changed, videos_updated_except};

verus! {

/// Prices a requested generation against the account's balance.
pub fn estimate_cost(store: &Store, user_id: &str, model: &str, size: &str, seconds: i32) -> (r:
    Result<EstimateResponse, AppError>)
    requires
        store.wf(),
    ensures
        match r {
            Ok(resp) => {
                &&& spec_model_ok(model@) && spec_size_ok(size@) && spec_seconds_ok(seconds as int)
                &&& spec_credits(model@, seconds as int) == Some(resp.credits_cost)
                &&& store.spec_has_user(user_id@)
                &&& resp.usd_equivalent@ == usd_string(resp.credits_cost as int)
                &&& resp.current_balance == store.spec_balance(user_id@)
                &&& resp.sufficient_credits == (resp.current_balance >= resp.credits_cost)
            },
            Err(e) => {
                if !(spec_model_ok(model@) && spec_size_ok(size@) && spec_seconds_ok(
                    seconds as int,
                )) {
                    e matches AppError::BadRequest(m) && m@ == if !spec_model_ok(model@) {
                        "Invalid model: "@ + model@
                    } else if !spec_size_ok(size@) {
                        "Invalid size: "@ + size@ + ". Must be 720x1280 or 1280x720"@
                    } else {
                        "Invalid duration: "@ + dec_int(seconds as int)
                            + "s. Must be 4, 8, or 12 seconds"@
                    }
                } else {
                    &&& !store.spec_has_user(user_id@)
                    &&& e matches AppError::NotFound(m) && m@ == "User not found"@
                }
            },
        },
{
    match validate_video_params(model, size, seconds) {
        Ok(()) => {},
        Err(e) => {
            return Err(e);
        },
    }
    let credits_cost = match calculate_credits(model, seconds) {
        Ok(c) => c,
        Err(e) => {
            return Err(e);
        },
    };
    let user = match store.get_user_by_id(user_id) {
        Ok(u) => u,
        Err(e) => {
            return Err(e);
        },
    };
    proof {
        let k = store.spec_user_index(user_id@);
        assert(store.users@[k].credits_balance == store.spec_balance(user_id@));
    }
    Ok(
        EstimateResponse {
            credits_cost,
            usd_equivalent: credits_to_usd(credits_cost),
            current_balance: user.credits_balance,
            sufficient_credits: user.credits_balance >= credits_cost,
        },
    )
}

/// An account's balance with its dollar rendering.
pub fn get_balance(store: &Store, user_id: &str) -> (r: Result<BalanceResponse, AppError>)
    requires
        store.wf(),
    ensures
        match r {
            Ok(resp) => {
                &&& store.spec_has_user(user_id@)
                &&& resp.credits_balance == store.spec_balance(user_id@)
                &&& resp.usd_equivalent@ == usd_string(resp.credits_balance as int)
            },
            Err(e) => {
                &&& !store.spec_has_user(user_id@)
                &&& e matches AppError::NotFound(m) && m@ == "User not found"@
            },
        },
{
    let user = match store.get_user_by_id(user_id) {
        Ok(u) => u,
        Err(e) => {
            return Err(e);
        },
    };
    proof {
        let k = store.spec_user_index(user_id@);
        assert(store.users@[k].credits_balance == store.spec_balance(user_id@));
    }
    Ok(
        BalanceResponse {
            credits_balance: user.credits_balance,
            usd_equivalent: credits_to_usd(user.credits_balance),
        },
    )
}

/// Validates a store purchase and credits the starter pack once per store
/// transaction: a purchase whose payment reference was already recorded is
/// rejected, so replayed receipts cannot credit twice.
pub fn validate_apple_iap(
    store: &mut Store,
    user_id: &str,
    transaction_id: &str,
    product_id: &str,
    bundle_id: &str,
    expected_bundle_id: &str,
    now_ms: u64,
) -> (r: Result<RevenueCatValidateResponse, AppError>)
    requires
        old(store).wf(),
        (bundle_id@ == expected_bundle_id@ && product_id@ == "sora_starter_pack"@ && !old(
            store,
        ).spec_payment_ref_exists(transaction_id@)) ==> old(store).spec_balance(user_id@)
            + STARTER_PACK_CREDITS <= i64::MAX,
    ensures
        final(store).wf(),
        match r {
            Ok(resp) => {
                &&& bundle_id@ == expected_bundle_id@
                &&& product_id@ == "sora_starter_pack"@
                &&& !old(store).spec_payment_ref_exists(transaction_id@)
                &&& old(store).spec_has_user(user_id@)
                &&& resp.success
                &&& resp.credits_added == STARTER_PACK_CREDITS
                &&& resp.new_balance == old(store).spec_balance(user_id@) + STARTER_PACK_CREDITS
                &&& ledger_entry_applied(
                    *old(store),
                    *final(store),
                    user_id@,
                    STARTER_PACK_CREDITS as int,
                    resp.new_balance,
                    TransactionKind::Purchase,
                    "Purchased Starter Pack"@,
                    None,
                    Some(transaction_id@),
                    now_ms,
                    false,
                )
                &&& final(store).spec_payment_ref_exists(transaction_id@)
            },
            Err(e) => {
                &&& same_store(*old(store), *final(store))
                &&& if bundle_id@ != expected_bundle_id@ {
                    e matches AppError::BadRequest(m) && m@ == "Invalid bundle ID"@
                } else if product_id@ != "sora_starter_pack"@ {
                    e matches AppError::BadRequest(m) && m@ == "Invalid product ID"@
                } else if old(store).spec_payment_ref_exists(transaction_id@) {
                    e matches AppError::BadRequest(m) && m@ == "Transaction already processed"@
                } else {
                    &&& !old(store).spec_has_user(user_id@)
                    &&& e matches AppError::NotFound(m) && m@ == "User not found"@
                }
            },
        },
{
    if !str_eq(bundle_id, expected_bundle_id) {
        return Err(AppError::BadRequest(String::from_str("Invalid bundle ID")));
    }
    if !str_eq(product_id, "sora_starter_pack") {
        return Err(AppError::BadRequest(String::from_str("Invalid product ID")));
    }
    match store.find_payment_ref(transaction_id) {
        Some(_) => {
            return Err(AppError::BadRequest(String::from_str("Transaction already processed")));
        },
        None => {},
    }
    let txid = String::from_str(transaction_id);
    match add_credits(
        store,
        user_id,
        STARTER_PACK_CREDITS,
        "Purchased Starter Pack",
        Some(&txid),
        now_ms,
    ) {
        Ok(nb) => {
            proof {
                let n = old(store).transactions@.len() as int;
                assert(opt_str_view(store.transactions@[n].revenuecat_transaction_id) == Some(
                    transaction_id@,
                ));
            }
            Ok(
                RevenueCatValidateResponse {
                    success: true,
                    credits_added: STARTER_PACK_CREDITS,
                    new_balance: nb,
                },
            )
        },
        Err(e) => Err(e),
    }
}

/// Applies one polled provider report to the job's row: progress for a
/// running job, the proxy locations for a completed one, the error for a
/// failed one; unknown states change nothing.
pub fn apply_status_poll(
    store: &mut Store,
    openai_video_id: &str,
    user_id: &str,
    status: &str,
    progress: Option<i32>,
    error_message: Option<&String>,
    service_url: &str,
    now_ms: u64,
) -> (r: Result<(), AppError>)
    requires
        old(store).wf(),
        now_ms + 86_400_000 <= u64::MAX,
    ensures
        final(store).wf(),
        r is Ok,
        only_videos_changed(*old(store), *final(store)),
        status@ != "in_progress"@ && status@ != "completed"@ && status@ != "failed"@
            ==> final(store).videos@ == old(store).videos@,
        !old(store).spec_has_video_openai(openai_video_id@)
            ==> final(store).videos@ == old(store).videos@,
        old(store).spec_has_video_openai(openai_video_id@) && (status@ == "in_progress"@ || status@
            == "completed"@ || status@ == "failed"@) ==> videos_updated_except(
            old(store).videos@,
            final(store).videos@,
            openai_video_id@,
        ),
        old(store).spec_has_video_openai(openai_video_id@) ==> forall|j: int|
            0 <= j < old(store).videos@.len() && (#[trigger] old(store).videos@[j]).openai_video_id@
                == openai_video_id@ ==> {
                &&& status@ == "in_progress"@ ==> {
                    &&& final(store).videos@[j].status == VideoStatus::InProgress
                    &&& final(store).videos@[j].progress == (match progress {
                        Some(p) => p,
                        None => 0,
                    })
                }
                &&& status@ == "completed"@ ==> {
                    &&& final(store).videos@[j].status == VideoStatus::Completed
                    &&& final(store).videos@[j].progress == 100
                    &&& final(store).videos@[j].video_url matches Some(u) && u@ == spec_proxy_url(
                        service_url@,
                        openai_video_id@,
                        "video"@,
                        user_id@,
                    )
                    &&& final(store).videos@[j].thumbnail_url matches Some(u) && u@
                        == spec_proxy_url(
                        service_url@,
                        openai_video_id@,
                        "thumbnail"@,
                        user_id@,
                    )
                    &&& final(store).videos@[j].spritesheet_url matches Some(u) && u@
                        == spec_proxy_url(
                        service_url@,
                        openai_video_id@,
                        "spritesheet"@,
                        user_id@,
                    )
                    &&& final(store).videos@[j].completed_at == Some(now_ms)
                }
                &&& status@ == "failed"@ ==> {
                    &&& final(store).videos@[j].status == VideoStatus::Failed
                    &&& final(store).videos@[j].failed_at == Some(now_ms)
                    &&& final(store).videos@[j].error_message matches Some(m) && m@ == (
                    match error_message {
                        Some(em) => em@,
                        None => "Unknown error"@,
                    })
                }
            },
{
    proof {
        reveal_strlit("in_progress");
        reveal_strlit("completed");
        reveal_strlit("failed");
        assert("in_progress"@.len() == 11);
        assert("completed"@.len() == 9);
        assert("failed"@.len() == 6);
    }
    if str_eq(status, "in_progress") {
        let p = match progress {
            Some(p) => p,
            None => 0,
        };
        match store.update_video_progress(openai_video_id, VideoStatus::InProgress, p) {
            Ok(()) => Ok(()),
            Err(_) => Ok(()),
        }
    } else if str_eq(status, "completed") {
        let video_url = build_proxy_url(service_url, openai_video_id, "video", user_id);
        let thumbnail_url = build_proxy_url(service_url, openai_video_id, "thumbnail", user_id);
        let spritesheet_url = build_proxy_url(
            service_url,
            openai_video_id,
            "spritesheet",
            user_id,
        );
        match store.update_video_completed(
            openai_video_id,
            video_url.as_str(),
            thumbnail_url.as_str(),
            spritesheet_url.as_str(),
            now_ms,
        ) {
            Ok(()) => Ok(()),
            Err(_) => Ok(()),
        }
    } else if str_eq(status, "failed") {
        let msg = match error_message {
            Some(em) => em.as_str(),
            None => "Unknown error",
        };
        match store.update_video_failed(openai_video_id, msg, now_ms) {
            Ok(()) => Ok(()),
            Err(_) => Ok(()),
        }
    } else {
        Ok(())
    }
}

} // verus!
