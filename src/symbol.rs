//! The symbol normalizer: ticker symbols to the names of the assets.
use vstd::prelude::*;
use crate::text::{same_text, to_upper, upper_of};

verus! {

/// The canonical name of the asset or currency whose upper-case ticker
/// symbol is `key`, if it is one of the known symbols.
pub open spec fn canonical_of(key: Seq<char>) -> Option<Seq<char>> {
    if key == "BTC"@ {
        Some("Bitcoin"@)
    } else if key == "ETH"@ {
        Some("Ethereum"@)
    } else if key == "AVAX"@ {
        Some("Avalanche"@)
    } else if key == "DOT"@ {
        Some("Polkadot"@)
    } else if key == "LTC"@ {
        Some("Litecoin"@)
    } else if key == "LINK"@ {
        Some("Chainlink"@)
    } else if key == "DOGE"@ {
        Some("Dogecoin"@)
    } else if key == "UNI"@ {
        Some("Uniswap"@)
    } else if key == "SHIB"@ {
        Some("Shiba Inu"@)
    } else if key == "TRX"@ {
        Some("TRON"@)
    } else if key == "USDT"@ {
        Some("Tether"@)
    } else if key == "USDC"@ {
        Some("USD Coin"@)
    } else if key == "BNB"@ {
        Some("Binance Coin"@)
    } else if key == "VET"@ {
        Some("VeChain"@)
    } else if key == "XTZ"@ {
        Some("Tezos"@)
    } else if key == "ALGO"@ {
        Some("Algorand"@)
    } else if key == "FIL"@ {
        Some("Filecoin"@)
    } else if key == "MATIC"@ {
        Some("Polygon"@)
    } else if key == "ICP"@ {
        Some("Internet Computer"@)
    } else if key == "XLM"@ {
        Some("Stellar"@)
    } else if key == "NEAR"@ {
        Some("NEAR Protocol"@)
    } else if key == "ETC"@ {
        Some("Ethereum Classic"@)
    } else if key == "FTM"@ {
        Some("Fantom"@)
    } else if key == "CRO"@ {
        Some("Cronos"@)
    } else if key == "RUB"@ {
        Some("Russian Ruble"@)
    } else if key == "KZT"@ {
        Some("Kazakhstani Tenge"@)
    } else if key == "USD"@ {
        Some("US Dollar"@)
    } else if key == "EUR"@ {
        Some("Euro"@)
    } else {
        None
    }
}

/// Whether the upper-case form of `symbol` is a known ticker symbol.
pub open spec fn is_known(symbol: Seq<char>) -> bool {
    canonical_of(upper_of(symbol)) is Some
}

/// The name that `symbol` normalizes to: the canonical name of its upper-case
/// form where that is known, else `symbol` itself, in its own casing.
pub open spec fn normalized(symbol: Seq<char>) -> Seq<char> {
    match canonical_of(upper_of(symbol)) {
        Some(name) => name,
        None => symbol,
    }
}

/// Looks up an upper-case ticker symbol in the table of known symbols.
pub fn canonical_name(upper: &str) -> (r: Option<&'static str>)
    ensures
        match r {
            Some(name) => canonical_of(upper@) == Some(name@),
            None => canonical_of(upper@) is None,
        },
{
    if same_text(upper, "BTC") {
        return Some("Bitcoin");
    }
    if same_text(upper, "ETH") {
        return Some("Ethereum");
    }
    if same_text(upper, "AVAX") {
        return Some("Avalanche");
    }
    if same_text(upper, "DOT") {
        return Some("Polkadot");
    }
    if same_text(upper, "LTC") {
        return Some("Litecoin");
    }
    if same_text(upper, "LINK") {
        return Some("Chainlink");
    }
    if same_text(upper, "DOGE") {
        return Some("Dogecoin");
    }
    if same_text(upper, "UNI") {
        return Some("Uniswap");
    }
    if same_text(upper, "SHIB") {
        return Some("Shiba Inu");
    }
    if same_text(upper, "TRX") {
        return Some("TRON");
    }
    if same_text(upper, "USDT") {
        return Some("Tether");
    }
    if same_text(upper, "USDC") {
        return Some("USD Coin");
    }
    if same_text(upper, "BNB") {
        return Some("Binance Coin");
    }
    if same_text(upper, "VET") {
        return Some("VeChain");
    }
    if same_text(upper, "XTZ") {
        return Some("Tezos");
    }
    if same_text(upper, "ALGO") {
        return Some("Algorand");
    }
    if same_text(upper, "FIL") {
        return Some("Filecoin");
    }
    if same_text(upper, "MATIC") {
        return Some("Polygon");
    }
    if same_text(upper, "ICP") {
        return Some("Internet Computer");
    }
    if same_text(upper, "XLM") {
        return Some("Stellar");
    }
    if same_text(upper, "NEAR") {
        return Some("NEAR Protocol");
    }
    if same_text(upper, "ETC") {
        return Some("Ethereum Classic");
    }
    if same_text(upper, "FTM") {
        return Some("Fantom");
    }
    if same_text(upper, "CRO") {
        return Some("Cronos");
    }
    if same_text(upper, "RUB") {
        return Some("Russian Ruble");
    }
    if same_text(upper, "KZT") {
        return Some("Kazakhstani Tenge");
    }
    if same_text(upper, "USD") {
        return Some("US Dollar");
    }
    if same_text(upper, "EUR") {
        return Some("Euro");
    }
    None
}

/// Maps a ticker symbol, in any casing, to the name of its asset; an unknown
/// symbol is handed back as it was given.
pub fn map_symbol_to_name<'a>(symbol: &'a str) -> (r: &'a str)
    ensures
        r@ == normalized(symbol@),
{
    let upper = to_upper(symbol);
    match canonical_name(upper.as_str()) {
        Some(name) => name,
        None => symbol,
    }
}

} // verus!

verus! {

/// A known symbol normalizes to its canonical name in any casing: every
/// spelling with the same upper-case form gives that same name.
pub proof fn lemma_known_symbol_ignores_case(symbol: Seq<char>, other: Seq<char>)
    requires
        is_known(symbol),
        upper_of(other) == upper_of(symbol),
    ensures
        normalized(symbol) == canonical_of(upper_of(symbol))->0,
        normalized(other) == normalized(symbol),
{
}

/// A symbol that is not known normalizes to itself, casing included.
pub proof fn lemma_unknown_symbol_unchanged(symbol: Seq<char>)
    requires
        !is_known(symbol),
    ensures
        normalized(symbol) == symbol,
{
}

} // verus!
