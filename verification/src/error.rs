//! The library's error type.
use vstd::prelude::*;
use crate::text::push_str;

verus! {

/// Errors of the library.
#[derive(Debug, Clone)]
pub enum AstockError {
    /// A stock code that none of the accepted formats matches.
    InvalidCode(String),
    /// A request to a data source failed.
    ApiError(String),
    /// A response could not be read.
    ParseError(String),
    /// The market is closed.
    MarketClosed,
}

impl AstockError {
    /// The message shown for the error.
    pub fn message(&self) -> (r: String)
        ensures
            r@ == match self {
                AstockError::InvalidCode(s) => "无效的股票代码: "@ + s@,
                AstockError::ApiError(s) => "API请求失败: "@ + s@,
                AstockError::ParseError(s) => "数据解析失败: "@ + s@,
                AstockError::MarketClosed => "市场已关闭"@,
            },
    {
        let mut r = String::new();
        match self {
            AstockError::InvalidCode(s) => {
                push_str(&mut r, "无效的股票代码: ");
                push_str(&mut r, s.as_str());
            },
            AstockError::ApiError(s) => {
                push_str(&mut r, "API请求失败: ");
                push_str(&mut r, s.as_str());
            },
            AstockError::ParseError(s) => {
                push_str(&mut r, "数据解析失败: ");
                push_str(&mut r, s.as_str());
            },
            AstockError::MarketClosed => {
                push_str(&mut r, "市场已关闭");
            },
        }
        r
    }
}

} // verus!
