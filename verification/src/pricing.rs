//! The pricing table: what a generation costs in credits, which parameters
//! are accepted, and how a credit amount reads in dollars (one credit is one
//! cent).

use vstd::prelude::*;
use vstd::string::StringExecFns;
use crate::errors::AppError;
use crate::strutil::{dec_digits, dec_int, i64_to_string, str_eq, u64_to_string};

verus! {

/// Credits granted to every fresh account.
pub const WELCOME_CREDITS: i64 = 100;

/// Credits in the one purchasable pack.
pub const STARTER_PACK_CREDITS: i64 = 1000;

/// The credit price of a model/duration pair; `None` where the pair is not
/// offered.
pub open spec fn spec_credits(model: Seq<char>, seconds: int) -> Option<i64> {
    if model == "sora-2"@ && seconds == 4 {
        Some(100i64)
    } else if model == "sora-2"@ && seconds == 8 {
        Some(150i64)
    } else if model == "sora-2"@ && seconds == 12 {
        Some(200i64)
    } else if model == "sora-2-pro"@ && seconds == 4 {
        Some(280i64)
    } else if model == "sora-2-pro"@ && seconds == 8 {
        Some(450i64)
    } else if model == "sora-2-pro"@ && seconds == 12 {
        Some(560i64)
    } else {
        None
    }
}

/// Prices a model/duration pair, or rejects it with the exact message the
/// service reports.
pub fn calculate_credits(model: &str, seconds: i32) -> (r: Result<i64, AppError>)
    ensures
        match r {
            Ok(c) => spec_credits(model@, seconds as int) == Some(c),
            Err(e) => {
                &&& spec_credits(model@, seconds as int) is None
                &&& e matches AppError::BadRequest(m) && m@ == "Invalid model/duration combination: "@
                    + model@ + " "@ + dec_int(seconds as int) + "s. Supported: 4s, 8s, 12s"@
            },
        },
{
    let is_sora2 = str_eq(model, "sora-2");
    let is_pro = str_eq(model, "sora-2-pro");
    if is_sora2 && seconds == 4 {
        Ok(100)
    } else if is_sora2 && seconds == 8 {
        Ok(150)
    } else if is_sora2 && seconds == 12 {
        Ok(200)
    } else if is_pro && seconds == 4 {
        Ok(280)
    } else if is_pro && seconds == 8 {
        Ok(450)
    } else if is_pro && seconds == 12 {
        Ok(560)
    } else {
        let msg = String::from_str("Invalid model/duration combination: ").concat(model).concat(
            " ",
        ).concat(i64_to_string(seconds as i64).as_str()).concat("s. Supported: 4s, 8s, 12s");
        Err(AppError::BadRequest(msg))
    }
}

/// Whether the model name is one the service offers.
pub open spec fn spec_model_ok(model: Seq<char>) -> bool {
    model == "sora-2"@ || model == "sora-2-pro"@
}

/// Whether the frame size is one the service offers.
pub open spec fn spec_size_ok(size: Seq<char>) -> bool {
    size == "720x1280"@ || size == "1280x720"@
}

/// Whether the duration is one the service offers.
pub open spec fn spec_seconds_ok(seconds: int) -> bool {
    seconds == 4 || seconds == 8 || seconds == 12
}

/// Accepts or rejects a requested generation, with the exact message the
/// service reports for the first failing parameter.
pub fn validate_video_params(model: &str, size: &str, seconds: i32) -> (r: Result<(), AppError>)
    ensures
        match r {
            Ok(()) => spec_model_ok(model@) && spec_size_ok(size@) && spec_seconds_ok(
                seconds as int,
            ),
            Err(e) => {
                &&& !(spec_model_ok(model@) && spec_size_ok(size@) && spec_seconds_ok(
                    seconds as int,
                ))
                &&& e matches AppError::BadRequest(m) && m@ == if !spec_model_ok(model@) {
                    "Invalid model: "@ + model@
                } else if !spec_size_ok(size@) {
                    "Invalid size: "@ + size@ + ". Must be 720x1280 or 1280x720"@
                } else {
                    "Invalid duration: "@ + dec_int(seconds as int)
                        + "s. Must be 4, 8, or 12 seconds"@
                }
            },
        },
{
    if !(str_eq(model, "sora-2") || str_eq(model, "sora-2-pro")) {
        return Err(AppError::BadRequest(String::from_str("Invalid model: ").concat(model)));
    }
    if !(str_eq(size, "720x1280") || str_eq(size, "1280x720")) {
        return Err(AppError::BadRequest(
            String::from_str("Invalid size: ").concat(size).concat(
                ". Must be 720x1280 or 1280x720",
            ),
        ));
    }
    if !(seconds == 4 || seconds == 8 || seconds == 12) {
        return Err(AppError::BadRequest(
            String::from_str("Invalid duration: ").concat(
                i64_to_string(seconds as i64).as_str(),
            ).concat("s. Must be 4, 8, or 12 seconds"),
        ));
    }
    Ok(())
}

/// Two decimal digits for a value below one hundred.
pub open spec fn pad2(n: nat) -> Seq<char> {
    if n < 10 {
        "0"@ + dec_digits(n)
    } else {
        dec_digits(n)
    }
}

/// The dollar rendering of a credit amount: a dollar sign, a minus for
/// negatives, then dollars and two digits of cents — one credit is one cent.
pub open spec fn usd_string(c: int) -> Seq<char> {
    let mag = if c < 0 {
        -c
    } else {
        c
    };
    (if c < 0 {
        "$-"@
    } else {
        "$"@
    }) + dec_digits((mag / 100) as nat) + "."@ + pad2((mag % 100) as nat)
}

fn two_digits(cents: u64) -> (r: String)
    requires
        cents < 100,
    ensures
        r@ == pad2(cents as nat),
{
    if cents < 10 {
        String::from_str("0").concat(u64_to_string(cents).as_str())
    } else {
        u64_to_string(cents)
    }
}

/// Renders a credit amount in dollars.
pub fn credits_to_usd(credits: i64) -> (r: String)
    ensures
        r@ == usd_string(credits as int),
{
    let mag: u64 = if credits < 0 {
        (-(credits as i128)) as u64
    } else {
        credits as u64
    };
    let prefix = if credits < 0 {
        "$-"
    } else {
        "$"
    };
    String::from_str(prefix).concat(u64_to_string(mag / 100).as_str()).concat(".").concat(
        two_digits(mag % 100).as_str(),
    )
}

} // verus!
