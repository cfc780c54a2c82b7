//! Indicator controls: the category of each indicator, the inline bar's
//! events, the "Indicators" modal (favorites, filtering, the parameter
//! editor) and the per-instance settings modal. `P` is the indicator
//! parameter set, which the indicator engine owns.

use vstd::prelude::*;
use crate::text::{has_substring, str_contains, str_equal};

verus! {

/// Identifiers of the trend indicators.
pub open spec fn trend_ids() -> Seq<&'static str> {
    seq!["ema", "sma", "wma", "hma", "alma", "adx", "ichimoku"]
}

/// Identifiers of the momentum indicators.
pub open spec fn momentum_ids() -> Seq<&'static str> {
    seq!["rsi", "macd", "ppo", "stochastic", "cci", "roc", "williams_r", "mfi"]
}

/// Identifiers of the volatility indicators.
pub open spec fn volatility_ids() -> Seq<&'static str> {
    seq!["bollinger", "keltner", "atr"]
}

/// Identifiers of the volume indicators.
pub open spec fn volume_ids() -> Seq<&'static str> {
    seq!["volume", "obv", "vwap"]
}

/// `id` is one of `names`.
pub open spec fn listed(names: Seq<&'static str>, id: Seq<char>) -> bool {
    exists|i: int| 0 <= i < names.len() && #[trigger] names[i]@ == id
}

/// Display category of an indicator; unknown indicators are "Other".
pub open spec fn category_of(id: Seq<char>) -> Seq<char> {
    if listed(trend_ids(), id) {
        "Trend"@
    } else if listed(momentum_ids(), id) {
        "Momentum"@
    } else if listed(volatility_ids(), id) {
        "Volatility"@
    } else if listed(volume_ids(), id) {
        "Volume"@
    } else {
        "Other"@
    }
}

fn is_listed(id: &str, names: &[&'static str]) -> (r: bool)
    ensures
        r == listed(names@, id@),
{
    let mut i: usize = 0;
    while i < names.len()
        invariant
            i <= names@.len(),
            forall|j: int| 0 <= j < i ==> #[trigger] names@[j]@ != id@,
        decreases names@.len() - i,
    {
        if str_equal(names[i], id) {
            return true;
        }
        i = i + 1;
    }
    false
}

/// The display category of indicator `id`.
pub fn indicator_category(id: &str) -> (r: &'static str)
    ensures
        r@ == category_of(id@),
{
    let trend = ["ema", "sma", "wma", "hma", "alma", "adx", "ichimoku"];
    let momentum = ["rsi", "macd", "ppo", "stochastic", "cci", "roc", "williams_r", "mfi"];
    let volatility = ["bollinger", "keltner", "atr"];
    let volume = ["volume", "obv", "vwap"];
    assert(trend@ =~= trend_ids());
    assert(momentum@ =~= momentum_ids());
    assert(volatility@ =~= volatility_ids());
    assert(volume@ =~= volume_ids());
    if is_listed(id, &trend) {
        "Trend"
    } else if is_listed(id, &momentum) {
        "Momentum"
    } else if is_listed(id, &volatility) {
        "Volatility"
    } else if is_listed(id, &volume) {
        "Volume"
    } else {
        "Other"
    }
}

/// Categories in the order the grouped list shows them.
pub open spec fn category_order() -> Seq<Seq<char>> {
    seq!["Trend"@, "Momentum"@, "Volatility"@, "Volume"@, "Other"@]
}

/// The categories, in display order.
pub fn categories() -> (r: Vec<&'static str>)
    ensures
        r@.map_values(|s: &'static str| s@) == category_order(),
{
    let v = vec!["Trend", "Momentum", "Volatility", "Volume", "Other"];
    assert(v@.map_values(|s: &'static str| s@) =~= category_order());
    v
}

/// Every indicator falls in one of the displayed categories, so the grouped
/// list shows each indicator exactly under its own header.
pub proof fn lemma_category_is_listed(id: Seq<char>)
    ensures
        category_order().contains(category_of(id)),
{
    let c = category_of(id);
    if c == "Trend"@ {
        assert(category_order()[0] == c);
    } else if c == "Momentum"@ {
        assert(category_order()[1] == c);
    } else if c == "Volatility"@ {
        assert(category_order()[2] == c);
    } else if c == "Volume"@ {
        assert(category_order()[3] == c);
    } else {
        assert(category_order()[4] == c);
    }
}

/// Moving averages, ADX and Ichimoku are trend indicators.
pub proof fn lemma_trend_indicators()
    ensures
        category_of("ema"@) == "Trend"@,
        category_of("sma"@) == "Trend"@,
        category_of("wma"@) == "Trend"@,
        category_of("hma"@) == "Trend"@,
        category_of("alma"@) == "Trend"@,
        category_of("adx"@) == "Trend"@,
        category_of("ichimoku"@) == "Trend"@,
{
    reveal_strlit("Momentum");
    reveal_strlit("Other");
    reveal_strlit("Trend");
    reveal_strlit("Volatility");
    reveal_strlit("Volume");
    reveal_strlit("adx");
    reveal_strlit("alma");
    reveal_strlit("atr");
    reveal_strlit("bollinger");
    reveal_strlit("cci");
    reveal_strlit("chandelier");
    reveal_strlit("ema");
    reveal_strlit("hma");
    reveal_strlit("ichimoku");
    reveal_strlit("keltner");
    reveal_strlit("macd");
    reveal_strlit("mfi");
    reveal_strlit("obv");
    reveal_strlit("parabolic_sar");
    reveal_strlit("pivot_points");
    reveal_strlit("ppo");
    reveal_strlit("roc");
    reveal_strlit("rsi");
    reveal_strlit("sma");
    reveal_strlit("stochastic");
    reveal_strlit("supertrend");
    reveal_strlit("volume");
    reveal_strlit("vwap");
    reveal_strlit("williams_r");
    reveal_strlit("wma");
    assert(trend_ids()[0]@ == "ema"@);
    assert(trend_ids()[1]@ == "sma"@);
    assert(trend_ids()[2]@ == "wma"@);
    assert(trend_ids()[3]@ == "hma"@);
    assert(trend_ids()[4]@ == "alma"@);
    assert(trend_ids()[5]@ == "adx"@);
    assert(trend_ids()[6]@ == "ichimoku"@);
}

/// RSI, MACD, PPO, the stochastic, CCI, ROC, Williams %R and MFI are momentum
/// indicators.
pub proof fn lemma_momentum_indicators()
    ensures
        category_of("rsi"@) == "Momentum"@,
        category_of("macd"@) == "Momentum"@,
        category_of("ppo"@) == "Momentum"@,
        category_of("stochastic"@) == "Momentum"@,
        category_of("cci"@) == "Momentum"@,
        category_of("roc"@) == "Momentum"@,
        category_of("williams_r"@) == "Momentum"@,
        category_of("mfi"@) == "Momentum"@,
{
    reveal_strlit("Momentum");
    reveal_strlit("Other");
    reveal_strlit("Trend");
    reveal_strlit("Volatility");
    reveal_strlit("Volume");
    reveal_strlit("adx");
    reveal_strlit("alma");
    reveal_strlit("atr");
    reveal_strlit("bollinger");
    reveal_strlit("cci");
    reveal_strlit("chandelier");
    reveal_strlit("ema");
    reveal_strlit("hma");
    reveal_strlit("ichimoku");
    reveal_strlit("keltner");
    reveal_strlit("macd");
    reveal_strlit("mfi");
    reveal_strlit("obv");
    reveal_strlit("parabolic_sar");
    reveal_strlit("pivot_points");
    reveal_strlit("ppo");
    reveal_strlit("roc");
    reveal_strlit("rsi");
    reveal_strlit("sma");
    reveal_strlit("stochastic");
    reveal_strlit("supertrend");
    reveal_strlit("volume");
    reveal_strlit("vwap");
    reveal_strlit("williams_r");
    reveal_strlit("wma");
    assert("rsi"@[0] != "ema"@[0] && "rsi"@[0] != "sma"@[0] && "rsi"@[0] != "wma"@[0] && "rsi"@[0] != "hma"@[0] && "rsi"@.len() != "alma"@.len() && "rsi"@[0] != "adx"@[0] && "rsi"@.len() != "ichimoku"@.len());
    assert forall|i: int| 0 <= i < trend_ids().len() implies #[trigger] trend_ids()[i]@ != "rsi"@ by {
        if i == 0 {} else if i == 1 {} else if i == 2 {} else if i == 3 {} else if i == 4 {} else if i == 5 {} else {}
    }
    assert(momentum_ids()[0]@ == "rsi"@);
    assert("macd"@.len() != "ema"@.len() && "macd"@.len() != "sma"@.len() && "macd"@.len() != "wma"@.len() && "macd"@.len() != "hma"@.len() && "macd"@[0] != "alma"@[0] && "macd"@.len() != "adx"@.len() && "macd"@.len() != "ichimoku"@.len());
    assert forall|i: int| 0 <= i < trend_ids().len() implies #[trigger] trend_ids()[i]@ != "macd"@ by {
        if i == 0 {} else if i == 1 {} else if i == 2 {} else if i == 3 {} else if i == 4 {} else if i == 5 {} else {}
    }
    assert(momentum_ids()[1]@ == "macd"@);
    assert("ppo"@[0] != "ema"@[0] && "ppo"@[0] != "sma"@[0] && "ppo"@[0] != "wma"@[0] && "ppo"@[0] != "hma"@[0] && "ppo"@.len() != "alma"@.len() && "ppo"@[0] != "adx"@[0] && "ppo"@.len() != "ichimoku"@.len());
    assert forall|i: int| 0 <= i < trend_ids().len() implies #[trigger] trend_ids()[i]@ != "ppo"@ by {
        if i == 0 {} else if i == 1 {} else if i == 2 {} else if i == 3 {} else if i == 4 {} else if i == 5 {} else {}
    }
    assert(momentum_ids()[2]@ == "ppo"@);
    assert("stochastic"@.len() != "ema"@.len() && "stochastic"@.len() != "sma"@.len() && "stochastic"@.len() != "wma"@.len() && "stochastic"@.len() != "hma"@.len() && "stochastic"@.len() != "alma"@.len() && "stochastic"@.len() != "adx"@.len() && "stochastic"@.len() != "ichimoku"@.len());
    assert forall|i: int| 0 <= i < trend_ids().len() implies #[trigger] trend_ids()[i]@ != "stochastic"@ by {
        if i == 0 {} else if i == 1 {} else if i == 2 {} else if i == 3 {} else if i == 4 {} else if i == 5 {} else {}
    }
    assert(momentum_ids()[3]@ == "stochastic"@);
    assert("cci"@[0] != "ema"@[0] && "cci"@[0] != "sma"@[0] && "cci"@[0] != "wma"@[0] && "cci"@[0] != "hma"@[0] && "cci"@.len() != "alma"@.len() && "cci"@[0] != "adx"@[0] && "cci"@.len() != "ichimoku"@.len());
    assert forall|i: int| 0 <= i < trend_ids().len() implies #[trigger] trend_ids()[i]@ != "cci"@ by {
        if i == 0 {} else if i == 1 {} else if i == 2 {} else if i == 3 {} else if i == 4 {} else if i == 5 {} else {}
    }
    assert(momentum_ids()[4]@ == "cci"@);
    assert("roc"@[0] != "ema"@[0] && "roc"@[0] != "sma"@[0] && "roc"@[0] != "wma"@[0] && "roc"@[0] != "hma"@[0] && "roc"@.len() != "alma"@.len() && "roc"@[0] != "adx"@[0] && "roc"@.len() != "ichimoku"@.len());
    assert forall|i: int| 0 <= i < trend_ids().len() implies #[trigger] trend_ids()[i]@ != "roc"@ by {
        if i == 0 {} else if i == 1 {} else if i == 2 {} else if i == 3 {} else if i == 4 {} else if i == 5 {} else {}
    }
    assert(momentum_ids()[5]@ == "roc"@);
    assert("williams_r"@.len() != "ema"@.len() && "williams_r"@.len() != "sma"@.len() && "williams_r"@.len() != "wma"@.len() && "williams_r"@.len() != "hma"@.len() && "williams_r"@.len() != "alma"@.len() && "williams_r"@.len() != "adx"@.len() && "williams_r"@.len() != "ichimoku"@.len());
    assert forall|i: int| 0 <= i < trend_ids().len() implies #[trigger] trend_ids()[i]@ != "williams_r"@ by {
        if i == 0 {} else if i == 1 {} else if i == 2 {} else if i == 3 {} else if i == 4 {} else if i == 5 {} else {}
    }
    assert(momentum_ids()[6]@ == "williams_r"@);
    assert("mfi"@[0] != "ema"@[0] && "mfi"@[0] != "sma"@[0] && "mfi"@[0] != "wma"@[0] && "mfi"@[0] != "hma"@[0] && "mfi"@.len() != "alma"@.len() && "mfi"@[0] != "adx"@[0] && "mfi"@.len() != "ichimoku"@.len());
    assert forall|i: int| 0 <= i < trend_ids().len() implies #[trigger] trend_ids()[i]@ != "mfi"@ by {
        if i == 0 {} else if i == 1 {} else if i == 2 {} else if i == 3 {} else if i == 4 {} else if i == 5 {} else {}
    }
    assert(momentum_ids()[7]@ == "mfi"@);
}

/// Bollinger and Keltner bands and ATR are volatility indicators.
pub proof fn lemma_volatility_indicators()
    ensures
        category_of("bollinger"@) == "Volatility"@,
        category_of("keltner"@) == "Volatility"@,
        category_of("atr"@) == "Volatility"@,
{
    reveal_strlit("Momentum");
    reveal_strlit("Other");
    reveal_strlit("Trend");
    reveal_strlit("Volatility");
    reveal_strlit("Volume");
    reveal_strlit("adx");
    reveal_strlit("alma");
    reveal_strlit("atr");
    reveal_strlit("bollinger");
    reveal_strlit("cci");
    reveal_strlit("chandelier");
    reveal_strlit("ema");
    reveal_strlit("hma");
    reveal_strlit("ichimoku");
    reveal_strlit("keltner");
    reveal_strlit("macd");
    reveal_strlit("mfi");
    reveal_strlit("obv");
    reveal_strlit("parabolic_sar");
    reveal_strlit("pivot_points");
    reveal_strlit("ppo");
    reveal_strlit("roc");
    reveal_strlit("rsi");
    reveal_strlit("sma");
    reveal_strlit("stochastic");
    reveal_strlit("supertrend");
    reveal_strlit("volume");
    reveal_strlit("vwap");
    reveal_strlit("williams_r");
    reveal_strlit("wma");
    assert("bollinger"@.len() != "ema"@.len() && "bollinger"@.len() != "sma"@.len() && "bollinger"@.len() != "wma"@.len() && "bollinger"@.len() != "hma"@.len() && "bollinger"@.len() != "alma"@.len() && "bollinger"@.len() != "adx"@.len() && "bollinger"@.len() != "ichimoku"@.len());
    assert forall|i: int| 0 <= i < trend_ids().len() implies #[trigger] trend_ids()[i]@ != "bollinger"@ by {
        if i == 0 {} else if i == 1 {} else if i == 2 {} else if i == 3 {} else if i == 4 {} else if i == 5 {} else {}
    }
    assert("bollinger"@.len() != "rsi"@.len() && "bollinger"@.len() != "macd"@.len() && "bollinger"@.len() != "ppo"@.len() && "bollinger"@.len() != "stochastic"@.len() && "bollinger"@.len() != "cci"@.len() && "bollinger"@.len() != "roc"@.len() && "bollinger"@.len() != "williams_r"@.len() && "bollinger"@.len() != "mfi"@.len());
    assert forall|i: int| 0 <= i < momentum_ids().len() implies #[trigger] momentum_ids()[i]@ != "bollinger"@ by {
        if i == 0 {} else if i == 1 {} else if i == 2 {} else if i == 3 {} else if i == 4 {} else if i == 5 {} else if i == 6 {} else {}
    }
    assert(volatility_ids()[0]@ == "bollinger"@);
    assert("keltner"@.len() != "ema"@.len() && "keltner"@.len() != "sma"@.len() && "keltner"@.len() != "wma"@.len() && "keltner"@.len() != "hma"@.len() && "keltner"@.len() != "alma"@.len() && "keltner"@.len() != "adx"@.len() && "keltner"@.len() != "ichimoku"@.len());
    assert forall|i: int| 0 <= i < trend_ids().len() implies #[trigger] trend_ids()[i]@ != "keltner"@ by {
        if i == 0 {} else if i == 1 {} else if i == 2 {} else if i == 3 {} else if i == 4 {} else if i == 5 {} else {}
    }
    assert("keltner"@.len() != "rsi"@.len() && "keltner"@.len() != "macd"@.len() && "keltner"@.len() != "ppo"@.len() && "keltner"@.len() != "stochastic"@.len() && "keltner"@.len() != "cci"@.len() && "keltner"@.len() != "roc"@.len() && "keltner"@.len() != "williams_r"@.len() && "keltner"@.len() != "mfi"@.len());
    assert forall|i: int| 0 <= i < momentum_ids().len() implies #[trigger] momentum_ids()[i]@ != "keltner"@ by {
        if i == 0 {} else if i == 1 {} else if i == 2 {} else if i == 3 {} else if i == 4 {} else if i == 5 {} else if i == 6 {} else {}
    }
    assert(volatility_ids()[1]@ == "keltner"@);
    assert("atr"@[0] != "ema"@[0] && "atr"@[0] != "sma"@[0] && "atr"@[0] != "wma"@[0] && "atr"@[0] != "hma"@[0] && "atr"@.len() != "alma"@.len() && "atr"@[1] != "adx"@[1] && "atr"@.len() != "ichimoku"@.len());
    assert forall|i: int| 0 <= i < trend_ids().len() implies #[trigger] trend_ids()[i]@ != "atr"@ by {
        if i == 0 {} else if i == 1 {} else if i == 2 {} else if i == 3 {} else if i == 4 {} else if i == 5 {} else {}
    }
    assert("atr"@[0] != "rsi"@[0] && "atr"@.len() != "macd"@.len() && "atr"@[0] != "ppo"@[0] && "atr"@.len() != "stochastic"@.len() && "atr"@[0] != "cci"@[0] && "atr"@[0] != "roc"@[0] && "atr"@.len() != "williams_r"@.len() && "atr"@[0] != "mfi"@[0]);
    assert forall|i: int| 0 <= i < momentum_ids().len() implies #[trigger] momentum_ids()[i]@ != "atr"@ by {
        if i == 0 {} else if i == 1 {} else if i == 2 {} else if i == 3 {} else if i == 4 {} else if i == 5 {} else if i == 6 {} else {}
    }
    assert(volatility_ids()[2]@ == "atr"@);
}

/// Volume, OBV and VWAP are volume indicators.
pub proof fn lemma_volume_indicators()
    ensures
        category_of("volume"@) == "Volume"@,
        category_of("obv"@) == "Volume"@,
        category_of("vwap"@) == "Volume"@,
{
    reveal_strlit("Momentum");
    reveal_strlit("Other");
    reveal_strlit("Trend");
    reveal_strlit("Volatility");
    reveal_strlit("Volume");
    reveal_strlit("adx");
    reveal_strlit("alma");
    reveal_strlit("atr");
    reveal_strlit("bollinger");
    reveal_strlit("cci");
    reveal_strlit("chandelier");
    reveal_strlit("ema");
    reveal_strlit("hma");
    reveal_strlit("ichimoku");
    reveal_strlit("keltner");
    reveal_strlit("macd");
    reveal_strlit("mfi");
    reveal_strlit("obv");
    reveal_strlit("parabolic_sar");
    reveal_strlit("pivot_points");
    reveal_strlit("ppo");
    reveal_strlit("roc");
    reveal_strlit("rsi");
    reveal_strlit("sma");
    reveal_strlit("stochastic");
    reveal_strlit("supertrend");
    reveal_strlit("volume");
    reveal_strlit("vwap");
    reveal_strlit("williams_r");
    reveal_strlit("wma");
    assert("volume"@.len() != "ema"@.len() && "volume"@.len() != "sma"@.len() && "volume"@.len() != "wma"@.len() && "volume"@.len() != "hma"@.len() && "volume"@.len() != "alma"@.len() && "volume"@.len() != "adx"@.len() && "volume"@.len() != "ichimoku"@.len());
    assert forall|i: int| 0 <= i < trend_ids().len() implies #[trigger] trend_ids()[i]@ != "volume"@ by {
        if i == 0 {} else if i == 1 {} else if i == 2 {} else if i == 3 {} else if i == 4 {} else if i == 5 {} else {}
    }
    assert("volume"@.len() != "rsi"@.len() && "volume"@.len() != "macd"@.len() && "volume"@.len() != "ppo"@.len() && "volume"@.len() != "stochastic"@.len() && "volume"@.len() != "cci"@.len() && "volume"@.len() != "roc"@.len() && "volume"@.len() != "williams_r"@.len() && "volume"@.len() != "mfi"@.len());
    assert forall|i: int| 0 <= i < momentum_ids().len() implies #[trigger] momentum_ids()[i]@ != "volume"@ by {
        if i == 0 {} else if i == 1 {} else if i == 2 {} else if i == 3 {} else if i == 4 {} else if i == 5 {} else if i == 6 {} else {}
    }
    assert("volume"@.len() != "bollinger"@.len() && "volume"@.len() != "keltner"@.len() && "volume"@.len() != "atr"@.len());
    assert forall|i: int| 0 <= i < volatility_ids().len() implies #[trigger] volatility_ids()[i]@ != "volume"@ by {
        if i == 0 {} else if i == 1 {} else {}
    }
    assert(volume_ids()[0]@ == "volume"@);
    assert("obv"@[0] != "ema"@[0] && "obv"@[0] != "sma"@[0] && "obv"@[0] != "wma"@[0] && "obv"@[0] != "hma"@[0] && "obv"@.len() != "alma"@.len() && "obv"@[0] != "adx"@[0] && "obv"@.len() != "ichimoku"@.len());
    assert forall|i: int| 0 <= i < trend_ids().len() implies #[trigger] trend_ids()[i]@ != "obv"@ by {
        if i == 0 {} else if i == 1 {} else if i == 2 {} else if i == 3 {} else if i == 4 {} else if i == 5 {} else {}
    }
    assert("obv"@[0] != "rsi"@[0] && "obv"@.len() != "macd"@.len() && "obv"@[0] != "ppo"@[0] && "obv"@.len() != "stochastic"@.len() && "obv"@[0] != "cci"@[0] && "obv"@[0] != "roc"@[0] && "obv"@.len() != "williams_r"@.len() && "obv"@[0] != "mfi"@[0]);
    assert forall|i: int| 0 <= i < momentum_ids().len() implies #[trigger] momentum_ids()[i]@ != "obv"@ by {
        if i == 0 {} else if i == 1 {} else if i == 2 {} else if i == 3 {} else if i == 4 {} else if i == 5 {} else if i == 6 {} else {}
    }
    assert("obv"@.len() != "bollinger"@.len() && "obv"@.len() != "keltner"@.len() && "obv"@[0] != "atr"@[0]);
    assert forall|i: int| 0 <= i < volatility_ids().len() implies #[trigger] volatility_ids()[i]@ != "obv"@ by {
        if i == 0 {} else if i == 1 {} else {}
    }
    assert(volume_ids()[1]@ == "obv"@);
    assert("vwap"@.len() != "ema"@.len() && "vwap"@.len() != "sma"@.len() && "vwap"@.len() != "wma"@.len() && "vwap"@.len() != "hma"@.len() && "vwap"@[0] != "alma"@[0] && "vwap"@.len() != "adx"@.len() && "vwap"@.len() != "ichimoku"@.len());
    assert forall|i: int| 0 <= i < trend_ids().len() implies #[trigger] trend_ids()[i]@ != "vwap"@ by {
        if i == 0 {} else if i == 1 {} else if i == 2 {} else if i == 3 {} else if i == 4 {} else if i == 5 {} else {}
    }
    assert("vwap"@.len() != "rsi"@.len() && "vwap"@[0] != "macd"@[0] && "vwap"@.len() != "ppo"@.len() && "vwap"@.len() != "stochastic"@.len() && "vwap"@.len() != "cci"@.len() && "vwap"@.len() != "roc"@.len() && "vwap"@.len() != "williams_r"@.len() && "vwap"@.len() != "mfi"@.len());
    assert forall|i: int| 0 <= i < momentum_ids().len() implies #[trigger] momentum_ids()[i]@ != "vwap"@ by {
        if i == 0 {} else if i == 1 {} else if i == 2 {} else if i == 3 {} else if i == 4 {} else if i == 5 {} else if i == 6 {} else {}
    }
    assert("vwap"@.len() != "bollinger"@.len() && "vwap"@.len() != "keltner"@.len() && "vwap"@.len() != "atr"@.len());
    assert forall|i: int| 0 <= i < volatility_ids().len() implies #[trigger] volatility_ids()[i]@ != "vwap"@ by {
        if i == 0 {} else if i == 1 {} else {}
    }
    assert(volume_ids()[2]@ == "vwap"@);
}

/// Pivot points, parabolic SAR, Supertrend and the chandelier exit fall under
/// "Other", as does any unknown identifier.
pub proof fn lemma_other_indicators()
    ensures
        category_of("pivot_points"@) == "Other"@,
        category_of("parabolic_sar"@) == "Other"@,
        category_of("supertrend"@) == "Other"@,
        category_of("chandelier"@) == "Other"@,
{
    reveal_strlit("Momentum");
    reveal_strlit("Other");
    reveal_strlit("Trend");
    reveal_strlit("Volatility");
    reveal_strlit("Volume");
    reveal_strlit("adx");
    reveal_strlit("alma");
    reveal_strlit("atr");
    reveal_strlit("bollinger");
    reveal_strlit("cci");
    reveal_strlit("chandelier");
    reveal_strlit("ema");
    reveal_strlit("hma");
    reveal_strlit("ichimoku");
    reveal_strlit("keltner");
    reveal_strlit("macd");
    reveal_strlit("mfi");
    reveal_strlit("obv");
    reveal_strlit("parabolic_sar");
    reveal_strlit("pivot_points");
    reveal_strlit("ppo");
    reveal_strlit("roc");
    reveal_strlit("rsi");
    reveal_strlit("sma");
    reveal_strlit("stochastic");
    reveal_strlit("supertrend");
    reveal_strlit("volume");
    reveal_strlit("vwap");
    reveal_strlit("williams_r");
    reveal_strlit("wma");
    assert("pivot_points"@.len() != "ema"@.len() && "pivot_points"@.len() != "sma"@.len() && "pivot_points"@.len() != "wma"@.len() && "pivot_points"@.len() != "hma"@.len() && "pivot_points"@.len() != "alma"@.len() && "pivot_points"@.len() != "adx"@.len() && "pivot_points"@.len() != "ichimoku"@.len());
    assert forall|i: int| 0 <= i < trend_ids().len() implies #[trigger] trend_ids()[i]@ != "pivot_points"@ by {
        if i == 0 {} else if i == 1 {} else if i == 2 {} else if i == 3 {} else if i == 4 {} else if i == 5 {} else {}
    }
    assert("pivot_points"@.len() != "rsi"@.len() && "pivot_points"@.len() != "macd"@.len() && "pivot_points"@.len() != "ppo"@.len() && "pivot_points"@.len() != "stochastic"@.len() && "pivot_points"@.len() != "cci"@.len() && "pivot_points"@.len() != "roc"@.len() && "pivot_points"@.len() != "williams_r"@.len() && "pivot_points"@.len() != "mfi"@.len());
    assert forall|i: int| 0 <= i < momentum_ids().len() implies #[trigger] momentum_ids()[i]@ != "pivot_points"@ by {
        if i == 0 {} else if i == 1 {} else if i == 2 {} else if i == 3 {} else if i == 4 {} else if i == 5 {} else if i == 6 {} else {}
    }
    assert("pivot_points"@.len() != "bollinger"@.len() && "pivot_points"@.len() != "keltner"@.len() && "pivot_points"@.len() != "atr"@.len());
    assert forall|i: int| 0 <= i < volatility_ids().len() implies #[trigger] volatility_ids()[i]@ != "pivot_points"@ by {
        if i == 0 {} else if i == 1 {} else {}
    }
    assert("pivot_points"@.len() != "volume"@.len() && "pivot_points"@.len() != "obv"@.len() && "pivot_points"@.len() != "vwap"@.len());
    assert forall|i: int| 0 <= i < volume_ids().len() implies #[trigger] volume_ids()[i]@ != "pivot_points"@ by {
        if i == 0 {} else if i == 1 {} else {}
    }
    assert("parabolic_sar"@.len() != "ema"@.len() && "parabolic_sar"@.len() != "sma"@.len() && "parabolic_sar"@.len() != "wma"@.len() && "parabolic_sar"@.len() != "hma"@.len() && "parabolic_sar"@.len() != "alma"@.len() && "parabolic_sar"@.len() != "adx"@.len() && "parabolic_sar"@.len() != "ichimoku"@.len());
    assert forall|i: int| 0 <= i < trend_ids().len() implies #[trigger] trend_ids()[i]@ != "parabolic_sar"@ by {
        if i == 0 {} else if i == 1 {} else if i == 2 {} else if i == 3 {} else if i == 4 {} else if i == 5 {} else {}
    }
    assert("parabolic_sar"@.len() != "rsi"@.len() && "parabolic_sar"@.len() != "macd"@.len() && "parabolic_sar"@.len() != "ppo"@.len() && "parabolic_sar"@.len() != "stochastic"@.len() && "parabolic_sar"@.len() != "cci"@.len() && "parabolic_sar"@.len() != "roc"@.len() && "parabolic_sar"@.len() != "williams_r"@.len() && "parabolic_sar"@.len() != "mfi"@.len());
    assert forall|i: int| 0 <= i < momentum_ids().len() implies #[trigger] momentum_ids()[i]@ != "parabolic_sar"@ by {
        if i == 0 {} else if i == 1 {} else if i == 2 {} else if i == 3 {} else if i == 4 {} else if i == 5 {} else if i == 6 {} else {}
    }
    assert("parabolic_sar"@.len() != "bollinger"@.len() && "parabolic_sar"@.len() != "keltner"@.len() && "parabolic_sar"@.len() != "atr"@.len());
    assert forall|i: int| 0 <= i < volatility_ids().len() implies #[trigger] volatility_ids()[i]@ != "parabolic_sar"@ by {
        if i == 0 {} else if i == 1 {} else {}
    }
    assert("parabolic_sar"@.len() != "volume"@.len() && "parabolic_sar"@.len() != "obv"@.len() && "parabolic_sar"@.len() != "vwap"@.len());
    assert forall|i: int| 0 <= i < volume_ids().len() implies #[trigger] volume_ids()[i]@ != "parabolic_sar"@ by {
        if i == 0 {} else if i == 1 {} else {}
    }
    assert("supertrend"@.len() != "ema"@.len() && "supertrend"@.len() != "sma"@.len() && "supertrend"@.len() != "wma"@.len() && "supertrend"@.len() != "hma"@.len() && "supertrend"@.len() != "alma"@.len() && "supertrend"@.len() != "adx"@.len() && "supertrend"@.len() != "ichimoku"@.len());
    assert forall|i: int| 0 <= i < trend_ids().len() implies #[trigger] trend_ids()[i]@ != "supertrend"@ by {
        if i == 0 {} else if i == 1 {} else if i == 2 {} else if i == 3 {} else if i == 4 {} else if i == 5 {} else {}
    }
    assert("supertrend"@.len() != "rsi"@.len() && "supertrend"@.len() != "macd"@.len() && "supertrend"@.len() != "ppo"@.len() && "supertrend"@[1] != "stochastic"@[1] && "supertrend"@.len() != "cci"@.len() && "supertrend"@.len() != "roc"@.len() && "supertrend"@[0] != "williams_r"@[0] && "supertrend"@.len() != "mfi"@.len());
    assert forall|i: int| 0 <= i < momentum_ids().len() implies #[trigger] momentum_ids()[i]@ != "supertrend"@ by {
        if i == 0 {} else if i == 1 {} else if i == 2 {} else if i == 3 {} else if i == 4 {} else if i == 5 {} else if i == 6 {} else {}
    }
    assert("supertrend"@.len() != "bollinger"@.len() && "supertrend"@.len() != "keltner"@.len() && "supertrend"@.len() != "atr"@.len());
    assert forall|i: int| 0 <= i < volatility_ids().len() implies #[trigger] volatility_ids()[i]@ != "supertrend"@ by {
        if i == 0 {} else if i == 1 {} else {}
    }
    assert("supertrend"@.len() != "volume"@.len() && "supertrend"@.len() != "obv"@.len() && "supertrend"@.len() != "vwap"@.len());
    assert forall|i: int| 0 <= i < volume_ids().len() implies #[trigger] volume_ids()[i]@ != "supertrend"@ by {
        if i == 0 {} else if i == 1 {} else {}
    }
    assert("chandelier"@.len() != "ema"@.len() && "chandelier"@.len() != "sma"@.len() && "chandelier"@.len() != "wma"@.len() && "chandelier"@.len() != "hma"@.len() && "chandelier"@.len() != "alma"@.len() && "chandelier"@.len() != "adx"@.len() && "chandelier"@.len() != "ichimoku"@.len());
    assert forall|i: int| 0 <= i < trend_ids().len() implies #[trigger] trend_ids()[i]@ != "chandelier"@ by {
        if i == 0 {} else if i == 1 {} else if i == 2 {} else if i == 3 {} else if i == 4 {} else if i == 5 {} else {}
    }
    assert("chandelier"@.len() != "rsi"@.len() && "chandelier"@.len() != "macd"@.len() && "chandelier"@.len() != "ppo"@.len() && "chandelier"@[0] != "stochastic"@[0] && "chandelier"@.len() != "cci"@.len() && "chandelier"@.len() != "roc"@.len() && "chandelier"@[0] != "williams_r"@[0] && "chandelier"@.len() != "mfi"@.len());
    assert forall|i: int| 0 <= i < momentum_ids().len() implies #[trigger] momentum_ids()[i]@ != "chandelier"@ by {
        if i == 0 {} else if i == 1 {} else if i == 2 {} else if i == 3 {} else if i == 4 {} else if i == 5 {} else if i == 6 {} else {}
    }
    assert("chandelier"@.len() != "bollinger"@.len() && "chandelier"@.len() != "keltner"@.len() && "chandelier"@.len() != "atr"@.len());
    assert forall|i: int| 0 <= i < volatility_ids().len() implies #[trigger] volatility_ids()[i]@ != "chandelier"@ by {
        if i == 0 {} else if i == 1 {} else {}
    }
    assert("chandelier"@.len() != "volume"@.len() && "chandelier"@.len() != "obv"@.len() && "chandelier"@.len() != "vwap"@.len());
    assert forall|i: int| 0 <= i < volume_ids().len() implies #[trigger] volume_ids()[i]@ != "chandelier"@ by {
        if i == 0 {} else if i == 1 {} else {}
    }
}

/// Only the listed identifiers get a named category: an indicator shown
/// under "Trend", "Momentum", "Volatility" or "Volume" is one of that
/// category's identifiers, and every indicator gets one of the five.
pub proof fn lemma_category_only_for_listed(id: Seq<char>)
    ensures
        category_of(id) == "Trend"@ ==> id == "ema"@ || id == "sma"@ || id == "wma"@ || id == "hma"@ || id == "alma"@ || id == "adx"@ || id == "ichimoku"@,
        category_of(id) == "Momentum"@ ==> id == "rsi"@ || id == "macd"@ || id == "ppo"@ || id == "stochastic"@ || id == "cci"@ || id == "roc"@ || id == "williams_r"@ || id == "mfi"@,
        category_of(id) == "Volatility"@ ==> id == "bollinger"@ || id == "keltner"@ || id == "atr"@,
        category_of(id) == "Volume"@ ==> id == "volume"@ || id == "obv"@ || id == "vwap"@,
{
    reveal_strlit("Trend");
    reveal_strlit("Momentum");
    reveal_strlit("Volatility");
    reveal_strlit("Volume");
    reveal_strlit("Other");
    assert("Trend"@.len() != "Momentum"@.len() && "Trend"@.len() != "Volume"@.len() && "Trend"@[0] != "Other"@[0]);
    assert("Trend"@.len() != "Volatility"@.len() && "Momentum"@.len() != "Volatility"@.len());
    assert("Momentum"@.len() != "Volume"@.len() && "Momentum"@.len() != "Other"@.len());
    assert("Volatility"@.len() != "Volume"@.len() && "Volatility"@.len() != "Other"@.len());
    assert("Volume"@.len() != "Other"@.len() || "Volume"@[0] != "Other"@[0]);
    if listed(trend_ids(), id) {
        let i = choose|i: int| 0 <= i < trend_ids().len() && #[trigger] trend_ids()[i]@ == id;
        assert(id == "ema"@ || id == "sma"@ || id == "wma"@ || id == "hma"@ || id == "alma"@ || id == "adx"@ || id == "ichimoku"@) by { if i == 0 {} else if i == 1 {} else if i == 2 {} else if i == 3 {} else if i == 4 {} else if i == 5 {} else {} }
    } else if listed(momentum_ids(), id) {
        let i = choose|i: int| 0 <= i < momentum_ids().len() && #[trigger] momentum_ids()[i]@ == id;
        assert(id == "rsi"@ || id == "macd"@ || id == "ppo"@ || id == "stochastic"@ || id == "cci"@ || id == "roc"@ || id == "williams_r"@ || id == "mfi"@) by { if i == 0 {} else if i == 1 {} else if i == 2 {} else if i == 3 {} else if i == 4 {} else if i == 5 {} else if i == 6 {} else {} }
    } else if listed(volatility_ids(), id) {
        let i = choose|i: int| 0 <= i < volatility_ids().len() && #[trigger] volatility_ids()[i]@ == id;
        assert(id == "bollinger"@ || id == "keltner"@ || id == "atr"@) by { if i == 0 {} else if i == 1 {} else {} }
    } else if listed(volume_ids(), id) {
        let i = choose|i: int| 0 <= i < volume_ids().len() && #[trigger] volume_ids()[i]@ == id;
        assert(id == "volume"@ || id == "obv"@ || id == "vwap"@) by { if i == 0 {} else if i == 1 {} else {} }
    }
}

/// Events of the inline indicator bar.
#[derive(Debug, Clone, Copy, PartialEq, Eq, Structural)]
pub enum IndicatorBarEvent {
    /// "All Indicators" was clicked.
    OpenModal,
    /// The close button of an active indicator's chip was clicked.
    Remove(u64),
}

/// The inline indicator bar of the chart toolbar.
#[derive(Debug, Clone, Copy, Default)]
pub struct IndicatorBar;

/// The parameter editor of the indicator modal.
pub enum ModalEditor<P> {
    /// Adding indicator `def_id` with parameters `draft`.
    Add { def_id: &'static str, draft: P },
    /// Editing the parameters of instance `instance_id`.
    Edit { instance_id: u64, def_id: &'static str, draft: P },
}

/// `std::str::to_lowercase` of a text (Unicode lowercase mapping).
pub uninterp spec fn lowercased(s: Seq<char>) -> Seq<char>;

/// `str::to_lowercase`: the Unicode lowercase mapping of `s`.
#[verifier::external_body]
fn to_lowercase(s: &str) -> (r: String)
    ensures
        r@ == lowercased(s@),
{
    s.to_lowercase()
}

/// Tab of the modal showing only favorites.
pub const FAVORITES_TAB: usize = 0;

/// The "Indicators" modal.
pub struct IndicatorModal<P> {
    pub open: bool,
    pub search_query: String,
    /// 0 = Favorites, 1 = All Indicators, 2 = My Indicators.
    pub active_tab: usize,
    /// Favorite indicator ids, without repetition.
    pub favorited: Vec<&'static str>,
    pub editor: Option<ModalEditor<P>>,
}

/// The ids in a favorites list, as a set of texts.
pub open spec fn favorite_set(v: Seq<&'static str>) -> Set<Seq<char>> {
    Set::new(|id: Seq<char>| exists|i: int| 0 <= i < v.len() && #[trigger] v[i]@ == id)
}

/// The favorite set after the star of `id` is clicked.
pub open spec fn toggled(s: Set<Seq<char>>, id: Seq<char>) -> Set<Seq<char>> {
    if s.contains(id) {
        s.remove(id)
    } else {
        s.insert(id)
    }
}

/// Clicking the same star twice leaves the favorites as they were.
pub proof fn lemma_toggle_favorite_twice(s: Set<Seq<char>>, id: Seq<char>)
    ensures
        toggled(toggled(s, id), id) == s,
{
    assert(toggled(toggled(s, id), id) =~= s);
}

/// No id appears twice.
pub open spec fn no_repeats(v: Seq<&'static str>) -> bool {
    forall|i: int, j: int| 0 <= i < v.len() && 0 <= j < v.len() && i != j ==> #[trigger] v[i]@ != #[trigger] v[j]@
}

impl<P> IndicatorModal<P> {
    /// Closed modal on the "All Indicators" tab with EMA and Volume as
    /// favorites.
    pub fn new() -> (m: Self)
        ensures
            !m.open,
            m.search_query@.len() == 0,
            m.active_tab == 1,
            favorite_set(m.favorited@) == set!["ema"@, "volume"@],
            no_repeats(m.favorited@),
            m.editor is None,
    {
        let favorited = vec!["ema", "volume"];
        proof {
            reveal_strlit("ema");
            reveal_strlit("volume");
            assert(favorited@[0]@ != favorited@[1]@) by {
                assert("ema"@.len() != "volume"@.len());
            }
            assert(favorite_set(favorited@) =~= set!["ema"@, "volume"@]) by {
                assert(favorited@[0]@ == "ema"@);
                assert(favorited@[1]@ == "volume"@);
            }
        }
        IndicatorModal {
            open: false,
            search_query: String::new(),
            active_tab: 1,
            favorited,
            editor: None,
        }
    }

    /// Whether `id` is a favorite.
    pub fn is_favorited(&self, id: &str) -> (r: bool)
        ensures
            r == favorite_set(self.favorited@).contains(id@),
    {
        let mut i: usize = 0;
        while i < self.favorited.len()
            invariant
                i <= self.favorited@.len(),
                forall|j: int| 0 <= j < i ==> #[trigger] self.favorited@[j]@ != id@,
            decreases self.favorited@.len() - i,
        {
            if str_equal(self.favorited[i], id) {
                assert(favorite_set(self.favorited@).contains(id@)) by {
                    assert(self.favorited@[i as int]@ == id@);
                }
                return true;
            }
            i = i + 1;
        }
        false
    }

    /// Position of `id` in the favorites, if present.
    fn favorite_position(&self, id: &str) -> (r: Option<usize>)
        ensures
            r matches Some(k) ==> k < self.favorited@.len() && self.favorited@[k as int]@ == id@,
            r is None ==> !favorite_set(self.favorited@).contains(id@),
    {
        let mut i: usize = 0;
        while i < self.favorited.len()
            invariant
                i <= self.favorited@.len(),
                forall|j: int| 0 <= j < i ==> #[trigger] self.favorited@[j]@ != id@,
            decreases self.favorited@.len() - i,
        {
            if str_equal(self.favorited[i], id) {
                return Some(i);
            }
            i = i + 1;
        }
        None
    }

    /// The star of an indicator row was clicked: add or remove it.
    pub fn toggle_favorite(&mut self, id: &'static str)
        requires
            no_repeats(old(self).favorited@),
        ensures
            no_repeats(final(self).favorited@),
            favorite_set(final(self).favorited@) == toggled(favorite_set(old(self).favorited@), id@),
            favorite_set(old(self).favorited@).contains(id@) ==> favorite_set(final(self).favorited@)
                == favorite_set(old(self).favorited@).remove(id@),
            !favorite_set(old(self).favorited@).contains(id@) ==> favorite_set(
                final(self).favorited@,
            ) == favorite_set(old(self).favorited@).insert(id@),
            *final(self) == (IndicatorModal { favorited: final(self).favorited, ..*old(self) }),
    {
        let ghost before = self.favorited@;
        match self.favorite_position(id) {
            Some(k) => {
                self.favorited.remove(k);
                proof {
                    let after = self.favorited@;
                    assert(after =~= before.remove(k as int));
                    assert(favorite_set(before).contains(id@)) by {
                        assert(before[k as int]@ == id@);
                    }
                    assert forall|i: int, j: int|
                        0 <= i < after.len() && 0 <= j < after.len() && i != j implies #[trigger] after[i]@
                        != #[trigger] after[j]@ by {
                        let oi = if i < k { i } else { i + 1 };
                        let oj = if j < k { j } else { j + 1 };
                        assert(after[i] == before[oi]);
                        assert(after[j] == before[oj]);
                    }
                    assert forall|t: Seq<char>| #[trigger] favorite_set(after).contains(t) == favorite_set(
                        before,
                    ).remove(id@).contains(t) by {
                        if favorite_set(after).contains(t) {
                            let i = choose|i: int| 0 <= i < after.len() && #[trigger] after[i]@ == t;
                            let oi = if i < k { i } else { i + 1 };
                            assert(after[i] == before[oi]);
                            assert(oi != k);
                            assert(t != id@);
                        }
                        if favorite_set(before).remove(id@).contains(t) {
                            let j = choose|j: int| 0 <= j < before.len() && #[trigger] before[j]@ == t;
                            assert(j != k);
                            let i = if j < k { j } else { j - 1 };
                            assert(after[i] == before[j]);
                        }
                    }
                    assert(favorite_set(after) =~= favorite_set(before).remove(id@));
                }
            },
            None => {
                self.favorited.push(id);
                proof {
                    let after = self.favorited@;
                    assert(after =~= before.push(id));
                    assert forall|i: int, j: int|
                        0 <= i < after.len() && 0 <= j < after.len() && i != j implies #[trigger] after[i]@
                        != #[trigger] after[j]@ by {
                        if i == before.len() {
                            assert(!favorite_set(before).contains(id@));
                            assert(after[j] == before[j]);
                        } else if j == before.len() {
                            assert(!favorite_set(before).contains(id@));
                            assert(after[i] == before[i]);
                        } else {
                            assert(after[i] == before[i]);
                            assert(after[j] == before[j]);
                        }
                    }
                    assert forall|t: Seq<char>| #[trigger] favorite_set(after).contains(t) == favorite_set(
                        before,
                    ).insert(id@).contains(t) by {
                        if favorite_set(after).contains(t) {
                            let i = choose|i: int| 0 <= i < after.len() && #[trigger] after[i]@ == t;
                            if i < before.len() {
                                assert(after[i] == before[i]);
                            }
                        }
                        if favorite_set(before).insert(id@).contains(t) {
                            if t == id@ {
                                assert(after[before.len() as int]@ == t);
                            } else {
                                let j = choose|j: int| 0 <= j < before.len() && #[trigger] before[j]@ == t;
                                assert(after[j] == before[j]);
                            }
                        }
                    }
                    assert(favorite_set(after) =~= favorite_set(before).insert(id@));
                }
            },
        }
    }

    /// Close the modal, dropping any open parameter editor.
    pub fn close(&mut self)
        ensures
            *final(self) == (IndicatorModal { open: false, editor: None, ..*old(self) }),
    {
        self.open = false;
        self.editor = None;
    }

    /// Whether indicator `def_id` named `def_name` is listed under category
    /// `category`: it belongs there, its lower-cased name contains the
    /// lower-cased search text (when there is one), and on the favorites tab
    /// it is a favorite.
    pub fn lists(&self, category: &str, def_id: &str, def_name: &str) -> (r: bool)
        ensures
            r == (category_of(def_id@) == category@ && (lowercased(self.search_query@).len() == 0
                || has_substring(lowercased(def_name@), lowercased(self.search_query@))) && !(
            self.active_tab == FAVORITES_TAB && !favorite_set(self.favorited@).contains(def_id@))),
    {
        if !str_equal(indicator_category(def_id), category) {
            return false;
        }
        let query = to_lowercase(self.search_query.as_str());
        if query.unicode_len() > 0 {
            let name = to_lowercase(def_name);
            if !str_contains(name.as_str(), query.as_str()) {
                return false;
            }
        }
        if self.active_tab == FAVORITES_TAB && !self.is_favorited(def_id) {
            return false;
        }
        true
    }

    /// Open the parameter editor on an added instance (its gear icon).
    pub fn edit_instance(&mut self, instance_id: u64, def_id: &'static str, draft: P)
        ensures
            *final(self) == (IndicatorModal {
                editor: Some(ModalEditor::Edit { instance_id, def_id, draft }),
                ..*old(self)
            }),
    {
        self.editor = Some(ModalEditor::Edit { instance_id, def_id, draft });
    }

    /// The editor was confirmed: hand the pending add or edit to the
    /// indicator manager and close the editor.
    pub fn take_confirmed_editor(&mut self) -> (r: Option<ModalEditor<P>>)
        ensures
            r == old(self).editor,
            *final(self) == (IndicatorModal { editor: None, ..*old(self) }),
    {
        self.editor.take()
    }
}

/// Tabs of the settings modal.
#[derive(Debug, Clone, Copy, PartialEq, Eq, Structural)]
pub enum SettingsTab {
    Inputs,
    Style,
    Introduction,
}

/// Settings modal of one indicator instance.
pub struct SettingsModal<P> {
    pub open: bool,
    pub instance_id: u64,
    pub active_tab: SettingsTab,
    /// Parameters being edited.
    pub draft: P,
}

impl<P> SettingsModal<P> {
    /// A closed modal with the given empty parameter set.
    pub fn new(empty: P) -> (m: Self)
        ensures
            !m.open,
            m.instance_id == 0,
            m.active_tab == SettingsTab::Inputs,
            m.draft == empty,
    {
        SettingsModal { open: false, instance_id: 0, active_tab: SettingsTab::Inputs, draft: empty }
    }

    /// Open the modal on instance `instance_id` with its current parameters,
    /// on the Inputs tab.
    pub fn open_for(&mut self, instance_id: u64, params: P)
        ensures
            *final(self) == (SettingsModal {
                open: true,
                instance_id,
                active_tab: SettingsTab::Inputs,
                draft: params,
            }),
    {
        self.open = true;
        self.instance_id = instance_id;
        self.active_tab = SettingsTab::Inputs;
        self.draft = params;
    }

    /// "Reset to Default": the draft becomes the indicator's defaults.
    pub fn reset_to(&mut self, defaults: P)
        ensures
            *final(self) == (SettingsModal { draft: defaults, ..*old(self) }),
    {
        self.draft = defaults;
    }

    /// "Done": close the modal; the draft is to be applied to the returned
    /// instance.
    pub fn apply(&mut self) -> (id: u64)
        ensures
            id == old(self).instance_id,
            *final(self) == (SettingsModal { open: false, ..*old(self) }),
    {
        self.open = false;
        self.instance_id
    }
}

} // verus!
