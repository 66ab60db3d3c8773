//! What the HTTP endpoints decide: which requests are refused and with what
//! reply, what has to be read from the chain, and the reply once it was read.
//! Serving, reading from the chain and encoding the replies are the caller's.

use vstd::prelude::*;
use vstd::string::*;
use crate::address::{address_of_text, Address};
use crate::amount::{amount_of_text, is_decimal_of, Amount, AmountParseError};
use crate::commander::{is_live, share_is_valid, sizing_of, SizingError, TitanCommander};
use crate::config::{ChainConfig, Config, BALANCER_V3_VAULT};
use crate::decimal::Decimal;
use crate::text::starts_with;

verus! {

/// The status of a reply that answers the request.
pub const STATUS_OK: u16 = 200;

/// The status of a reply to a request that is refused.
pub const STATUS_BAD_REQUEST: u16 = 400;

/// The status of a reply when the server could not do its part.
pub const STATUS_INTERNAL_SERVER_ERROR: u16 = 500;

/// The status of a reply from an endpoint that is not offered yet.
pub const STATUS_NOT_IMPLEMENTED: u16 = 501;

/// The reply of the health endpoint.
#[derive(Debug, Clone)]
pub struct HealthResponse {
    pub status: String,
    pub version: String,
    pub uptime_seconds: u64,
    pub rust_engine: bool,
}

/// A request for the reserves of a pool.
#[derive(Debug, Clone)]
pub struct PoolQueryRequest {
    pub chain_id: u64,
    pub pool_address: String,
    pub dex_type: String,
}

/// The reserves of a pool.
#[derive(Debug, Clone)]
pub struct Reserves {
    pub reserve0: String,
    pub reserve1: String,
    pub token0: String,
    pub token1: String,
}

/// The reply to a request for the reserves of a pool.
#[derive(Debug, Clone)]
pub struct PoolQueryResponse {
    pub pool_address: String,
    pub reserves: Option<Reserves>,
    pub error: Option<String>,
}

/// The reply of the metrics endpoint.
#[derive(Debug, Clone)]
pub struct MetricsResponse {
    pub queries_total: u64,
    pub queries_success: u64,
    pub queries_failed: u64,
    pub avg_response_time_ms: Decimal,
    pub uptime_seconds: u64,
}

/// A request for the liquidity a lender holds of a token.
#[derive(Debug, Clone)]
pub struct TvlQueryRequest {
    pub chain_id: u64,
    pub token_address: String,
    pub lender_address: Option<String>,
}

/// The reply to a liquidity request.
#[derive(Debug, Clone)]
pub struct TvlQueryResponse {
    pub tvl: String,
    pub chain_id: u64,
    pub token_address: String,
    pub lender_address: String,
    pub success: bool,
    pub error: Option<String>,
}

/// A request to size a loan.
#[derive(Debug, Clone)]
pub struct LoanOptimizeRequest {
    pub chain_id: u64,
    pub token_address: String,
    pub target_amount: String,
    pub decimals: u8,
}

/// The reply to a request to size a loan.
#[derive(Debug, Clone)]
pub struct LoanOptimizeResponse {
    pub optimized_amount: String,
    pub chain_id: u64,
    pub success: bool,
    pub error: Option<String>,
}

/// What to read from the chain for a liquidity request that was accepted.
#[derive(Debug, Clone)]
pub struct TvlQueryPlan {
    pub chain_id: u64,
    pub rpc: String,
    pub token_address: String,
    pub lender_address: String,
    pub token: Address,
    pub lender: Address,
}

/// What to read from the chain for a loan request that was accepted.
#[derive(Debug, Clone)]
pub struct LoanPlan {
    pub chain_id: u64,
    pub rpc: String,
    pub token: Address,
    pub target_amount: Amount,
    pub decimals: u8,
}

/// Whether `msg` says that the chain `chain_id` is not supported.
pub open spec fn is_unsupported_chain_message(msg: Seq<char>, chain_id: u64) -> bool {
    exists|d: Seq<char>|
        is_decimal_of(d, chain_id as nat) && msg == "Chain "@ + d + " not supported"@
}

/// The lender a liquidity request names: its own, or the Balancer V3 vault.
pub open spec fn lender_text(request: &TvlQueryRequest) -> Seq<char> {
    match request.lender_address {
        Some(l) => l@,
        None => BALANCER_V3_VAULT@,
    }
}

/// Whether `reply` refuses a liquidity request with a message that begins
/// with `prefix`, naming `lender` as the lender.
pub open spec fn tvl_refusal(
    reply: &TvlQueryResponse,
    request: &TvlQueryRequest,
    lender: Seq<char>,
    prefix: Seq<char>,
) -> bool {
    &&& reply.tvl@ == "0"@
    &&& reply.chain_id == request.chain_id
    &&& reply.token_address@ == request.token_address@
    &&& reply.lender_address@ == lender
    &&& !reply.success
    &&& reply.error is Some
    &&& starts_with(reply.error->0@, prefix)
}

/// Whether `reply` refuses a loan request with a message that begins with
/// `prefix`.
pub open spec fn loan_refusal(reply: &LoanOptimizeResponse, chain_id: u64, prefix: Seq<char>)
    -> bool {
    &&& reply.optimized_amount@ == "0"@
    &&& reply.chain_id == chain_id
    &&& !reply.success
    &&& reply.error is Some
    &&& starts_with(reply.error->0@, prefix)
}

/// Why a decimal text is no amount, in words.
pub open spec fn amount_error_text(e: AmountParseError) -> Seq<char> {
    match e {
        AmountParseError::InvalidCharacter => "a character is not in the range 0-9"@,
        AmountParseError::InvalidLength => "the number is too large for the type"@,
    }
}

impl AmountParseError {
    /// The error in words.
    pub fn message(&self) -> (r: String)
        ensures
            r@ == amount_error_text(*self),
    {
        match self {
            AmountParseError::InvalidCharacter => "a character is not in the range 0-9".to_owned(),
            AmountParseError::InvalidLength => "the number is too large for the type".to_owned(),
        }
    }
}

impl SizingError {
    /// The error in words.
    pub fn message(&self) -> (r: String)
        ensures
            r@ == "max TVL share must be above 0 and at most 1"@,
    {
        "max TVL share must be above 0 and at most 1".to_owned()
    }
}

/// `prefix` followed by `detail`.
fn prefixed(prefix: &str, detail: &str) -> (r: String)
    ensures
        r@ == prefix@ + detail@,
        starts_with(r@, prefix@),
{
    let r = prefix.to_owned().concat(detail);
    assert((prefix@ + detail@).subrange(0, prefix@.len() as int) =~= prefix@);
    r
}

/// The message that a chain is not supported.
fn unsupported_chain_message(chain_id: u64) -> (r: String)
    ensures
        is_unsupported_chain_message(r@, chain_id),
        starts_with(r@, "Chain "@),
{
    let digits = Amount::from_u64(chain_id).to_dec_string();
    let r = "Chain ".to_owned().concat(digits.as_str()).concat(" not supported");
    assert(r@ == "Chain "@ + digits@ + " not supported"@);
    assert(r@.subrange(0, "Chain "@.len() as int) =~= "Chain "@);
    r
}

/// The reply of the health endpoint for a server of version `version`.
pub fn health_check(version: &str) -> (r: HealthResponse)
    ensures
        r.status@ == "healthy"@,
        r.version@ == version@,
        r.uptime_seconds == 0,
        r.rust_engine,
{
    HealthResponse {
        status: "healthy".to_owned(),
        version: version.to_owned(),
        uptime_seconds: 0,
        rust_engine: true,
    }
}

/// The reply to a request for the reserves of a pool: the endpoint is not
/// offered yet.
pub fn query_pool(request: &PoolQueryRequest) -> (r: (u16, PoolQueryResponse))
    ensures
        r.0 == STATUS_NOT_IMPLEMENTED,
        r.1.pool_address@ == request.pool_address@,
        r.1.reserves is None,
        r.1.error is Some,
        exists|d: Seq<char>|
            is_decimal_of(d, request.chain_id as nat) && r.1.error->0@
                == "Pool querying for DEX '"@ + request.dex_type@ + "' on chain "@ + d
                + " is not implemented yet; this endpoint currently returns a placeholder response."@,
{
    let digits = Amount::from_u64(request.chain_id).to_dec_string();
    let message = "Pool querying for DEX '".to_owned().concat(request.dex_type.as_str()).concat(
        "' on chain ",
    ).concat(digits.as_str()).concat(
        " is not implemented yet; this endpoint currently returns a placeholder response.",
    );
    (
        STATUS_NOT_IMPLEMENTED,
        PoolQueryResponse {
            pool_address: request.pool_address.clone(),
            reserves: None,
            error: Some(message),
        },
    )
}

/// The reply of the metrics endpoint: nothing is counted yet.
pub fn metrics() -> (r: MetricsResponse)
    ensures
        r.queries_total == 0,
        r.queries_success == 0,
        r.queries_failed == 0,
        r.avg_response_time_ms@ == 0,
        r.uptime_seconds == 0,
{
    MetricsResponse {
        queries_total: 0,
        queries_success: 0,
        queries_failed: 0,
        avg_response_time_ms: Decimal { micros: 0 },
        uptime_seconds: 0,
    }
}

/// A reply that refuses a liquidity request.
fn tvl_failure(request: &TvlQueryRequest, lender: String, message: String) -> (r:
    TvlQueryResponse)
    ensures
        r.tvl@ == "0"@,
        r.chain_id == request.chain_id,
        r.token_address@ == request.token_address@,
        r.lender_address@ == lender@,
        !r.success,
        r.error == Some(message),
{
    TvlQueryResponse {
        tvl: "0".to_owned(),
        chain_id: request.chain_id,
        token_address: request.token_address.clone(),
        lender_address: lender,
        success: false,
        error: Some(message),
    }
}

/// Decides a liquidity request from the chain's configuration and from what
/// reading its two addresses gave. The request is refused, in this order,
/// where the chain is not configured, where the token address was refused and
/// where the lender address was refused; else it is accepted.
pub fn decide_tvl_query(
    request: &TvlQueryRequest,
    chain: Option<&ChainConfig>,
    token: Result<Address, String>,
    lender: Result<Address, String>,
) -> (r: Result<TvlQueryPlan, (u16, TvlQueryResponse)>)
    ensures
        match r {
            Ok(plan) => {
                &&& chain is Some
                &&& token is Ok
                &&& lender is Ok
                &&& plan.chain_id == request.chain_id
                &&& plan.rpc@ == chain->0.rpc@
                &&& plan.token_address@ == request.token_address@
                &&& plan.lender_address@ == lender_text(request)
                &&& plan.token == token->Ok_0
                &&& plan.lender == lender->Ok_0
            },
            Err(reply) => {
                &&& reply.0 == STATUS_BAD_REQUEST
                &&& if chain is None {
                    &&& tvl_refusal(&reply.1, request, Seq::empty(), "Chain "@)
                    &&& is_unsupported_chain_message(reply.1.error->0@, request.chain_id)
                } else if token is Err {
                    &&& tvl_refusal(
                        &reply.1,
                        request,
                        lender_text(request),
                        "Invalid token address: "@,
                    )
                    &&& reply.1.error->0@ == "Invalid token address: "@ + token->Err_0@
                } else {
                    &&& lender is Err
                    &&& tvl_refusal(
                        &reply.1,
                        request,
                        lender_text(request),
                        "Invalid lender address: "@,
                    )
                    &&& reply.1.error->0@ == "Invalid lender address: "@ + lender->Err_0@
                }
            },
        },
{
    let chain_config = match chain {
        Some(c) => c,
        None => {
            let message = unsupported_chain_message(request.chain_id);
            return Err((STATUS_BAD_REQUEST, tvl_failure(request, String::new(), message)));
        },
    };
    let lender_address: String = match &request.lender_address {
        Some(l) => l.clone(),
        None => BALANCER_V3_VAULT.to_owned(),
    };
    let token_addr = match token {
        Ok(a) => a,
        Err(e) => {
            let message = prefixed("Invalid token address: ", e.as_str());
            return Err((STATUS_BAD_REQUEST, tvl_failure(request, lender_address, message)));
        },
    };
    let lender_addr = match lender {
        Ok(a) => a,
        Err(e) => {
            let message = prefixed("Invalid lender address: ", e.as_str());
            return Err((STATUS_BAD_REQUEST, tvl_failure(request, lender_address, message)));
        },
    };
    Ok(
        TvlQueryPlan {
            chain_id: request.chain_id,
            rpc: chain_config.rpc.clone(),
            token_address: request.token_address.clone(),
            lender_address,
            token: token_addr,
            lender: lender_addr,
        },
    )
}

/// Decides a liquidity request: looks the chain up, reads the two addresses,
/// and accepts or refuses as `decide_tvl_query` says.
pub fn plan_tvl_query(config: &Config, request: &TvlQueryRequest) -> (r: Result<
    TvlQueryPlan,
    (u16, TvlQueryResponse),
>)
    ensures
        r is Ok <==> config.chains@.contains_key(request.chain_id) && address_of_text(
            request.token_address@,
        ) is Some && address_of_text(lender_text(request)) is Some,
        match r {
            Ok(plan) => {
                &&& plan.chain_id == request.chain_id
                &&& plan.rpc@ == config.chains@[request.chain_id].rpc@
                &&& plan.token_address@ == request.token_address@
                &&& plan.lender_address@ == lender_text(request)
                &&& address_of_text(request.token_address@) == Some(plan.token@)
                &&& address_of_text(lender_text(request)) == Some(plan.lender@)
            },
            Err(reply) => {
                &&& reply.0 == STATUS_BAD_REQUEST
                &&& if !config.chains@.contains_key(request.chain_id) {
                    &&& tvl_refusal(&reply.1, request, Seq::empty(), "Chain "@)
                    &&& is_unsupported_chain_message(reply.1.error->0@, request.chain_id)
                } else if address_of_text(request.token_address@) is None {
                    tvl_refusal(
                        &reply.1,
                        request,
                        lender_text(request),
                        "Invalid token address: "@,
                    )
                } else {
                    tvl_refusal(
                        &reply.1,
                        request,
                        lender_text(request),
                        "Invalid lender address: "@,
                    )
                }
            },
        },
{
    let chain = config.get_chain(request.chain_id);
    let token = Address::parse(request.token_address.as_str());
    let lender = match &request.lender_address {
        Some(l) => Address::parse(l.as_str()),
        None => Address::parse(BALANCER_V3_VAULT),
    };
    decide_tvl_query(request, chain, token, lender)
}

/// The reply to an accepted liquidity request when no connection to the
/// chain could be made.
pub fn tvl_provider_failure(plan: &TvlQueryPlan, detail: &str) -> (r: (u16, TvlQueryResponse))
    ensures
        r.0 == STATUS_INTERNAL_SERVER_ERROR,
        r.1.tvl@ == "0"@,
        r.1.chain_id == plan.chain_id,
        r.1.token_address@ == plan.token_address@,
        r.1.lender_address@ == plan.lender_address@,
        !r.1.success,
        r.1.error is Some,
        r.1.error->0@ == "Failed to create provider: "@ + detail@,
{
    (
        STATUS_INTERNAL_SERVER_ERROR,
        TvlQueryResponse {
            tvl: "0".to_owned(),
            chain_id: plan.chain_id,
            token_address: plan.token_address.clone(),
            lender_address: plan.lender_address.clone(),
            success: false,
            error: Some(prefixed("Failed to create provider: ", detail)),
        },
    )
}

/// The reply to an accepted liquidity request once the chain was read: the
/// liquidity in decimal, or a server error with the reason the read failed.
pub fn finish_tvl_query(plan: &TvlQueryPlan, read: Result<Amount, String>) -> (r: (
    u16,
    TvlQueryResponse,
))
    ensures
        r.1.chain_id == plan.chain_id,
        r.1.token_address@ == plan.token_address@,
        r.1.lender_address@ == plan.lender_address@,
        match read {
            Ok(tvl) => {
                &&& r.0 == STATUS_OK
                &&& is_decimal_of(r.1.tvl@, tvl@)
                &&& r.1.success
                &&& r.1.error is None
            },
            Err(e) => {
                &&& r.0 == STATUS_INTERNAL_SERVER_ERROR
                &&& r.1.tvl@ == "0"@
                &&& !r.1.success
                &&& r.1.error is Some
                &&& r.1.error->0@ == "TVL query failed: "@ + e@
            },
        },
{
    match read {
        Ok(tvl) => (
            STATUS_OK,
            TvlQueryResponse {
                tvl: tvl.to_dec_string(),
                chain_id: plan.chain_id,
                token_address: plan.token_address.clone(),
                lender_address: plan.lender_address.clone(),
                success: true,
                error: None,
            },
        ),
        Err(e) => (
            STATUS_INTERNAL_SERVER_ERROR,
            TvlQueryResponse {
                tvl: "0".to_owned(),
                chain_id: plan.chain_id,
                token_address: plan.token_address.clone(),
                lender_address: plan.lender_address.clone(),
                success: false,
                error: Some(prefixed("TVL query failed: ", e.as_str())),
            },
        ),
    }
}

/// A reply that refuses a loan request or reports a failure.
fn loan_failure(chain_id: u64, message: String) -> (r: LoanOptimizeResponse)
    ensures
        r.optimized_amount@ == "0"@,
        r.chain_id == chain_id,
        !r.success,
        r.error == Some(message),
{
    LoanOptimizeResponse {
        optimized_amount: "0".to_owned(),
        chain_id,
        success: false,
        error: Some(message),
    }
}

/// Decides a loan request from the chain's configuration and from what
/// reading its address and its amount gave. The request is refused, in this
/// order, where the chain is not configured, where the token address was
/// refused and where the amount is no decimal number below 2^256; else it is
/// accepted.
pub fn decide_loan_request(
    request: &LoanOptimizeRequest,
    chain: Option<&ChainConfig>,
    token: Result<Address, String>,
    amount: Result<Amount, AmountParseError>,
) -> (r: Result<LoanPlan, (u16, LoanOptimizeResponse)>)
    ensures
        match r {
            Ok(plan) => {
                &&& chain is Some
                &&& token is Ok
                &&& amount is Ok
                &&& plan.chain_id == request.chain_id
                &&& plan.rpc@ == chain->0.rpc@
                &&& plan.token == token->Ok_0
                &&& plan.target_amount == amount->Ok_0
                &&& plan.decimals == request.decimals
            },
            Err(reply) => {
                &&& reply.0 == STATUS_BAD_REQUEST
                &&& if chain is None {
                    &&& loan_refusal(&reply.1, request.chain_id, "Chain "@)
                    &&& is_unsupported_chain_message(reply.1.error->0@, request.chain_id)
                } else if token is Err {
                    &&& loan_refusal(&reply.1, request.chain_id, "Invalid token address: "@)
                    &&& reply.1.error->0@ == "Invalid token address: "@ + token->Err_0@
                } else {
                    &&& amount is Err
                    &&& loan_refusal(&reply.1, request.chain_id, "Invalid target amount: "@)
                    &&& reply.1.error->0@ == "Invalid target amount: "@ + amount_error_text(
                        amount->Err_0,
                    )
                }
            },
        },
{
    let chain_config = match chain {
        Some(c) => c,
        None => {
            let message = unsupported_chain_message(request.chain_id);
            return Err((STATUS_BAD_REQUEST, loan_failure(request.chain_id, message)));
        },
    };
    let token_addr = match token {
        Ok(a) => a,
        Err(e) => {
            let message = prefixed("Invalid token address: ", e.as_str());
            return Err((STATUS_BAD_REQUEST, loan_failure(request.chain_id, message)));
        },
    };
    let target_amount = match amount {
        Ok(a) => a,
        Err(e) => {
            let detail = e.message();
            let message = prefixed("Invalid target amount: ", detail.as_str());
            return Err((STATUS_BAD_REQUEST, loan_failure(request.chain_id, message)));
        },
    };
    Ok(
        LoanPlan {
            chain_id: request.chain_id,
            rpc: chain_config.rpc.clone(),
            token: token_addr,
            target_amount,
            decimals: request.decimals,
        },
    )
}

/// Decides a loan request: looks the chain up, reads the address and the
/// amount, and accepts or refuses as `decide_loan_request` says.
pub fn plan_loan_request(config: &Config, request: &LoanOptimizeRequest) -> (r: Result<
    LoanPlan,
    (u16, LoanOptimizeResponse),
>)
    ensures
        r is Ok <==> config.chains@.contains_key(request.chain_id) && address_of_text(
            request.token_address@,
        ) is Some && amount_of_text(request.target_amount@) is Ok,
        match r {
            Ok(plan) => {
                &&& plan.chain_id == request.chain_id
                &&& plan.rpc@ == config.chains@[request.chain_id].rpc@
                &&& address_of_text(request.token_address@) == Some(plan.token@)
                &&& amount_of_text(request.target_amount@) == Ok::<nat, AmountParseError>(
                    plan.target_amount@,
                )
                &&& plan.decimals == request.decimals
            },
            Err(reply) => {
                &&& reply.0 == STATUS_BAD_REQUEST
                &&& if !config.chains@.contains_key(request.chain_id) {
                    &&& loan_refusal(&reply.1, request.chain_id, "Chain "@)
                    &&& is_unsupported_chain_message(reply.1.error->0@, request.chain_id)
                } else if address_of_text(request.token_address@) is None {
                    loan_refusal(&reply.1, request.chain_id, "Invalid token address: "@)
                } else {
                    &&& loan_refusal(&reply.1, request.chain_id, "Invalid target amount: "@)
                    &&& amount_of_text(request.target_amount@) is Err
                    &&& reply.1.error->0@ == "Invalid target amount: "@ + amount_error_text(
                        amount_of_text(request.target_amount@)->Err_0,
                    )
                }
            },
        },
{
    let chain = config.get_chain(request.chain_id);
    let token = Address::parse(request.token_address.as_str());
    let amount = Amount::from_dec_str(request.target_amount.as_str());
    decide_loan_request(request, chain, token, amount)
}

/// The reply to an accepted loan request when no connection to the chain
/// could be made.
pub fn loan_provider_failure(plan: &LoanPlan, detail: &str) -> (r: (u16, LoanOptimizeResponse))
    ensures
        r.0 == STATUS_INTERNAL_SERVER_ERROR,
        loan_refusal(&r.1, plan.chain_id, "Failed to create provider: "@),
        r.1.error->0@ == "Failed to create provider: "@ + detail@,
{
    (
        STATUS_INTERNAL_SERVER_ERROR,
        loan_failure(plan.chain_id, prefixed("Failed to create provider: ", detail)),
    )
}

/// The reply to an accepted loan request once the pool's liquidity was read,
/// `None` standing for a read that failed: the loan is sized under the
/// guardrails `commander` and the sized amount is given in decimal.
pub fn finish_loan_request(commander: &TitanCommander, plan: &LoanPlan, reading: Option<Amount>)
    -> (r: (u16, LoanOptimizeResponse))
    ensures
        r.1.chain_id == plan.chain_id,
        ({
            let liquidity = match reading {
                Some(a) => Some(a@),
                None => None,
            };
            if share_is_valid(commander.max_tvl_share@) || !is_live(liquidity) {
                &&& r.0 == STATUS_OK
                &&& r.1.success
                &&& r.1.error is None
                &&& is_decimal_of(
                    r.1.optimized_amount@,
                    sizing_of(
                        commander.max_tvl_share@,
                        liquidity,
                        plan.target_amount@,
                        plan.decimals,
                    ).final_amount,
                )
            } else {
                &&& r.0 == STATUS_INTERNAL_SERVER_ERROR
                &&& loan_refusal(&r.1, plan.chain_id, "Loan optimization failed: "@)
                &&& r.1.error->0@ == "Loan optimization failed: "@
                    + "max TVL share must be above 0 and at most 1"@
            }
        }),
{
    match commander.optimize_loan_size(reading, plan.target_amount, plan.decimals) {
        Ok(optimized) => (
            STATUS_OK,
            LoanOptimizeResponse {
                optimized_amount: optimized.to_dec_string(),
                chain_id: plan.chain_id,
                success: true,
                error: None,
            },
        ),
        Err(e) => {
            let detail = e.message();
            (
                STATUS_INTERNAL_SERVER_ERROR,
                loan_failure(
                    plan.chain_id,
                    prefixed("Loan optimization failed: ", detail.as_str()),
                ),
            )
        },
    }
}

} // verus!
