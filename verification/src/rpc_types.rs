//! The values that the JSON-RPC service exchanges with its clients.
//!
//! These are the bare types; their wire form (camelCase field names) is given
//! by the serde copies that the application layer keeps beside them.
use vstd::prelude::*;

verus! {

/// The page used when none, or one below the first, is asked for.
pub const DEFAULT_ACCOUNT_PAGE: i64 = 1;

/// The page size used when none, or one below one, is asked for.
pub const DEFAULT_ACCOUNT_PAGE_SIZE: i64 = 5;

/// The answer to `initialize`.
pub struct InitializeResult {
    pub server_name: String,
    pub version: String,
}

/// One account as the account list shows it.
pub struct AccountSummary {
    pub id: String,
    pub label: String,
    pub group_name: Option<String>,
    pub sort: i64,
}

/// The parameters of the account list: paging, a search text and two filters.
pub struct AccountListParams {
    pub page: i64,
    pub page_size: i64,
    pub query: Option<String>,
    pub filter: Option<String>,
    pub group_filter: Option<String>,
}

impl Default for AccountListParams {
    fn default() -> (r: Self)
        ensures
            r.page == DEFAULT_ACCOUNT_PAGE,
            r.page_size == DEFAULT_ACCOUNT_PAGE_SIZE,
            r.query is None,
            r.filter is None,
            r.group_filter is None,
    {
        AccountListParams {
            page: DEFAULT_ACCOUNT_PAGE,
            page_size: DEFAULT_ACCOUNT_PAGE_SIZE,
            query: None,
            filter: None,
            group_filter: None,
        }
    }
}

impl AccountListParams {
    /// Whether the paging fields are usable as they stand.
    pub open spec fn is_normal(&self) -> bool {
        self.page >= 1 && self.page_size >= 1
    }

    /// Replaces a page below one by the first page and a page size below one
    /// by the default size; the other fields are kept.
    pub fn normalized(self) -> (r: Self)
        ensures
            r.page == normalized_page(self.page),
            r.page_size == normalized_page_size(self.page_size),
            r.query == self.query,
            r.filter == self.filter,
            r.group_filter == self.group_filter,
            r.is_normal(),
    {
        AccountListParams {
            page: if self.page < 1 {
                DEFAULT_ACCOUNT_PAGE
            } else {
                self.page
            },
            page_size: if self.page_size < 1 {
                DEFAULT_ACCOUNT_PAGE_SIZE
            } else {
                self.page_size
            },
            query: self.query,
            filter: self.filter,
            group_filter: self.group_filter,
        }
    }
}

/// The page that an account list request asks for, once normalized.
pub open spec fn normalized_page(page: i64) -> i64 {
    if page < 1 {
        DEFAULT_ACCOUNT_PAGE
    } else {
        page
    }
}

/// The page size that an account list request asks for, once normalized.
pub open spec fn normalized_page_size(page_size: i64) -> i64 {
    if page_size < 1 {
        DEFAULT_ACCOUNT_PAGE_SIZE
    } else {
        page_size
    }
}

/// Normalizing account list parameters a second time changes nothing, and the
/// result always asks for a page and a page size of at least one.
pub proof fn lemma_account_list_normalization_idempotent(page: i64, page_size: i64)
    ensures
        normalized_page(normalized_page(page)) == normalized_page(page),
        normalized_page_size(normalized_page_size(page_size)) == normalized_page_size(page_size),
        normalized_page(page) >= 1,
        normalized_page_size(page_size) >= 1,
        page >= 1 ==> normalized_page(page) == page,
        page_size >= 1 ==> normalized_page_size(page_size) == page_size,
{
}

/// One page of the account list.
pub struct AccountListResult {
    pub items: Vec<AccountSummary>,
    pub total: i64,
    pub page: i64,
    pub page_size: i64,
}

/// The endpoints of the device authorization flow.
pub struct DeviceAuthInfo {
    pub user_code_url: String,
    pub token_url: String,
    pub verification_url: String,
    pub redirect_uri: String,
}

/// The answer to a login start.
pub struct LoginStartResult {
    pub auth_url: String,
    pub login_id: String,
    pub login_type: String,
    pub issuer: String,
    pub client_id: String,
    pub redirect_uri: String,
    pub warning: Option<String>,
    pub device: Option<DeviceAuthInfo>,
}

/// One platform API key as the key list shows it.
pub struct ApiKeySummary {
    pub id: String,
    pub name: Option<String>,
    pub model_slug: Option<String>,
    pub reasoning_effort: Option<String>,
    pub client_type: String,
    pub protocol_type: String,
    pub auth_scheme: String,
    pub upstream_base_url: Option<String>,
    pub static_headers_json: Option<String>,
    pub status: String,
    pub created_at: i64,
    pub last_used_at: Option<i64>,
}

/// The platform API key list.
pub struct ApiKeyListResult {
    pub items: Vec<ApiKeySummary>,
}

/// The answer to a key creation: its id and its secret.
pub struct ApiKeyCreateResult {
    pub id: String,
    pub key: String,
}

/// The secret of a key, read back.
pub struct ApiKeySecretResult {
    pub id: String,
    pub key: String,
}

/// One model that a key can be bound to.
pub struct ModelOption {
    pub slug: String,
    pub display_name: String,
}

/// The models that a key can be bound to.
pub struct ApiKeyModelListResult {
    pub items: Vec<ModelOption>,
}

} // verus!
