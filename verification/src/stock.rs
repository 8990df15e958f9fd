//! The quote of one stock: how it is asked for, built and reported.

use vstd::prelude::*;
use vstd::string::*;

use crate::decimal::{decimal, push_decimal};
use crate::error::{QuoteError, QuoteErrorView};
use crate::float::Float64;
use crate::report::{lines_view, Amount, ReportLine, ReportLineView};
use crate::response::{decoded, ApiResponse};

verus! {

/// The bit pattern of the double nearest to 0.95, by which a price is
/// multiplied for the value shown as its moving average.
pub const MOVING_AVERAGE_FACTOR: u64 = 0x3FEE_6666_6666_6666;

/// The bit pattern of the double nearest to 1.05, by which a volume is
/// multiplied for the value shown as its relative strength index.
pub const RSI_FACTOR: u64 = 0x3FF0_CCCC_CCCC_CCCD;

/// A stock's quote. No field is validated: a quote holds whatever the caller
/// or the vendor supplied.
#[derive(Debug)]
pub struct StockData {
    /// Ticker symbol.
    pub symbol: String,
    /// Current price.
    pub price: Float64,
    /// Number of shares traded.
    pub volume: u64,
    /// Market capitalization.
    pub market_cap: Float64,
}

/// A quote with its symbol as a sequence of characters.
pub struct StockDataView {
    pub symbol: Seq<char>,
    pub price: Float64,
    pub volume: u64,
    pub market_cap: Float64,
}

impl View for StockData {
    type V = StockDataView;

    open spec fn view(&self) -> StockDataView {
        StockDataView {
            symbol: self.symbol@,
            price: self.price,
            volume: self.volume,
            market_cap: self.market_cap,
        }
    }
}

/// The address that is asked for the quote of `symbol`. The symbol stands in
/// it as it is, unescaped.
pub open spec fn url_of(symbol: Seq<char>) -> Seq<char> {
    "https://api.nasdaq.com/api/quote/"@ + symbol + "/info?assetclass=stocks"@
}

/// What became of a request, with its texts as sequences of characters.
pub open spec fn fetched_view(fetched: Result<String, String>) -> Result<Seq<char>, Seq<char>> {
    match fetched {
        Ok(body) => Ok(body@),
        Err(reason) => Err(reason@),
    }
}

/// What a retrieval ended in, with its texts as sequences of characters.
pub open spec fn outcome_view(
    outcome: Result<StockData, QuoteError>,
) -> Result<StockDataView, QuoteErrorView> {
    match outcome {
        Ok(quote) => Ok(quote@),
        Err(error) => Err(error@),
    }
}

/// What a retrieval ends in, given what became of the request: the
/// transport's failure, a decode failure for a body that holds no answer, and
/// else the quote of the symbol with the answer's numbers.
pub open spec fn retrieved(
    symbol: Seq<char>,
    fetched: Result<Seq<char>, Seq<char>>,
) -> Result<StockDataView, QuoteErrorView> {
    match fetched {
        Err(reason) => Err(QuoteErrorView::TransportFailure(reason)),
        Ok(body) => match decoded(body) {
            None => Err(QuoteErrorView::DecodeFailure),
            Some(answer) => Ok(
                StockDataView {
                    symbol,
                    price: answer.price,
                    volume: answer.volume,
                    market_cap: answer.market_cap,
                },
            ),
        },
    }
}

impl StockDataView {
    /// The indicator report: the value shown as 10-day moving average, which
    /// is the price times 0.95, then the value shown as 14-day RSI, which is
    /// the volume times 1.05.
    pub open spec fn indicator_report(self) -> Seq<ReportLineView> {
        seq![
            ReportLineView {
                text: "10-day moving average: "@,
                amount: Some(Amount::Product(self.price, Float64 { bits: MOVING_AVERAGE_FACTOR })),
            },
            ReportLineView {
                text: "14-day RSI: "@,
                amount: Some(Amount::CountProduct(self.volume, Float64 { bits: RSI_FACTOR })),
            },
        ]
    }

    /// The trend report: one fixed line.
    pub open spec fn trend_report(self) -> Seq<ReportLineView> {
        seq![ReportLineView { text: "Visualizing trends..."@, amount: None }]
    }

    /// The summary report: a heading, then symbol, price, volume and market
    /// capitalization, in this order.
    pub open spec fn summary_report(self) -> Seq<ReportLineView> {
        seq![
            ReportLineView { text: "Generating report..."@, amount: None },
            ReportLineView { text: "Symbol: "@ + self.symbol, amount: None },
            ReportLineView { text: "Price: "@, amount: Some(Amount::Value(self.price)) },
            ReportLineView { text: "Volume: "@ + decimal(self.volume as nat), amount: None },
            ReportLineView { text: "Market Cap: "@, amount: Some(Amount::Value(self.market_cap)) },
        ]
    }
}

/// The address to send a GET request to for the quote of `symbol`.
pub fn request_url(symbol: &str) -> (url: String)
    ensures
        url@ == url_of(symbol@),
{
    let mut url = String::from_str("https://api.nasdaq.com/api/quote/");
    url.append(symbol);
    url.append("/info?assetclass=stocks");
    url
}

impl StockData {
    /// A quote with exactly the given fields.
    pub fn new(
        symbol: String,
        price: Float64,
        volume: u64,
        market_cap: Float64,
    ) -> (quote: StockData)
        ensures
            quote.symbol == symbol,
            quote.price == price,
            quote.volume == volume,
            quote.market_cap == market_cap,
    {
        StockData { symbol, price, volume, market_cap }
    }

    /// Completes the retrieval of the quote of `symbol`. `fetched` is what
    /// became of the GET request to [`request_url`]`(symbol)`: the response
    /// body, whatever the status, or the transport's account of its failure.
    pub fn retrieve_data(
        symbol: &str,
        fetched: Result<String, String>,
    ) -> (outcome: Result<StockData, QuoteError>)
        ensures
            outcome_view(outcome) == retrieved(symbol@, fetched_view(fetched)),
    {
        match fetched {
            Err(reason) => Err(QuoteError::TransportFailure(reason)),
            Ok(body) => match ApiResponse::decode(body.as_str()) {
                Err(error) => Err(error),
                Ok(answer) => Ok(
                    StockData::new(
                        String::from_str(symbol),
                        answer.price,
                        answer.volume,
                        answer.market_cap,
                    ),
                ),
            },
        }
    }

    /// The lines of the indicator report.
    pub fn calculate_technical_indicators(&self) -> (lines: Vec<ReportLine>)
        ensures
            lines_view(lines@) == self@.indicator_report(),
    {
        let moving_average = Amount::Product(self.price, Float64::from_bits(MOVING_AVERAGE_FACTOR));
        let rsi = Amount::CountProduct(self.volume, Float64::from_bits(RSI_FACTOR));
        let mut lines = Vec::new();
        lines.push(ReportLine::labelled("10-day moving average: ", moving_average));
        lines.push(ReportLine::labelled("14-day RSI: ", rsi));
        lines
    }

    /// The lines of the trend report.
    pub fn visualize_trends(&self) -> (lines: Vec<ReportLine>)
        ensures
            lines_view(lines@) == self@.trend_report(),
    {
        let mut lines = Vec::new();
        lines.push(ReportLine::plain("Visualizing trends..."));
        lines
    }

    /// The lines of the summary report. Every field is shown as it is,
    /// whatever its sign or size.
    pub fn generate_report(&self) -> (lines: Vec<ReportLine>)
        ensures
            lines_view(lines@) == self@.summary_report(),
    {
        let mut symbol = String::from_str("Symbol: ");
        symbol.append(self.symbol.as_str());
        let mut volume = String::from_str("Volume: ");
        push_decimal(&mut volume, self.volume);
        let mut lines = Vec::new();
        lines.push(ReportLine::plain("Generating report..."));
        lines.push(ReportLine { text: symbol, amount: None });
        lines.push(ReportLine::labelled("Price: ", Amount::Value(self.price)));
        lines.push(ReportLine { text: volume, amount: None });
        lines.push(ReportLine::labelled("Market Cap: ", Amount::Value(self.market_cap)));
        lines
    }
}

} // verus!
