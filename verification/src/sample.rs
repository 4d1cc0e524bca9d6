//! The sample library that the driver is configured for: the names it
//! exports, the arguments the driver calls them with, and the text each of
//! them prints.

use vstd::prelude::*;
use crate::invoker::{symbols_view, Argument, ArgumentView, Symbol, SymbolView};

verus! {

/// The symbols of the sample run, in call order: `lib_test`, which takes
/// nothing, and `lib_test1`, which is handed the text `hi`.
pub open spec fn sample_run() -> Seq<SymbolView> {
    seq![
        SymbolView { name: "lib_test"@, argument: ArgumentView::Unit },
        SymbolView { name: "lib_test1"@, argument: ArgumentView::Text("hi"@) },
    ]
}

/// The symbols that the driver invokes, in call order.
pub fn sample_symbols() -> (symbols: Vec<Symbol>)
    ensures
        symbols_view(symbols@) == sample_run(),
{
    let mut symbols: Vec<Symbol> = Vec::new();
    symbols.push(Symbol { name: "lib_test".to_owned(), argument: Argument::Unit });
    symbols.push(
        Symbol { name: "lib_test1".to_owned(), argument: Argument::Text("hi".to_owned()) },
    );
    symbols
}

/// The line that the export `lib_test` prints.
pub fn lib_test() -> (line: String)
    ensures
        line@ == "Hello from the library!"@,
{
    "Hello from the library!".to_owned()
}

/// The line that the export `lib_test1` prints when it is handed `text`:
/// the text stands in it unchanged.
pub fn lib_test1(text: &str) -> (line: String)
    ensures
        line@ == "Hello from the library param - "@ + text@ + "!"@,
{
    "Hello from the library param - ".to_owned().concat(text).concat("!")
}

} // verus!
