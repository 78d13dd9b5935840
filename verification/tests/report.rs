use astock::decimal::Decimal;
use astock::models::{Bar, Date};
use astock::report::{
    build_indicator_report, format_report, BollResult, IndicatorReport, IndicatorValue, KdjResult, MacdResult,
};
use astock::stock::StockCode;

fn d(m: i64, s: u32) -> Option<Decimal> {
    Some(Decimal::new(m, s))
}

fn ma(name: &str, v: Option<Decimal>) -> IndicatorValue {
    IndicatorValue { name: name.to_string(), value: v }
}

fn readme_report() -> IndicatorReport {
    IndicatorReport {
        ma: vec![ma("MA5", d(138099, 2)), ma("MA10", d(140001, 2)), ma("MA20", d(142151, 2)), ma("MA60", d(144050, 2))],
        macd: MacdResult { dif: d(-1607, 2), dea: d(-956, 2), histogram: d(-650, 2) },
        rsi: d(3140, 2),
        kdj: KdjResult { k: d(1264, 2), d: d(1490, 2), j: d(810, 2) },
        boll: BollResult { upper: d(148596, 2), middle: d(142151, 2), lower: d(135707, 2) },
        close: Decimal::new(137299, 2),
        date: "2026-05-08".to_string(),
    }
}

#[test]
fn report_reads_as_in_the_readme() {
    let text = format_report(&readme_report(), "600519.SH");
    let rule = "─".repeat(60);
    let expected = vec![
        "600519.SH 技术指标报告 (2026-05-08)".to_string(),
        rule.clone(),
        "MA:   MA5: 1380.99  MA10: 1400.01  MA20: 1421.51  MA60: 1440.50".to_string(),
        "      → 空头排列 (MA5 < MA10 < MA20)".to_string(),
        "MACD: DIF=-16.07  DEA=-9.56  柱=-6.50".to_string(),
        "      → DIF在DEA下方 (死叉/空头)".to_string(),
        "RSI:  31.40".to_string(),
        "      → 中性区域".to_string(),
        "KDJ:  K=12.64  D=14.90  J=8.10".to_string(),
        "      → K在D下方 (死叉)".to_string(),
        "BOLL: 上轨=1485.96  中轨=1421.51  下轨=1357.07".to_string(),
        "      → 价格在中轨下方".to_string(),
        rule,
    ]
    .join("\n");
    assert_eq!(text, expected);
}

#[test]
fn unknown_values_show_as_na_and_extremes_are_flagged() {
    let r = IndicatorReport {
        ma: vec![ma("MA5", None)],
        macd: MacdResult { dif: d(2, 0), dea: None, histogram: None },
        rsi: d(75, 0),
        kdj: KdjResult { k: d(90, 0), d: d(80, 0), j: d(110, 0) },
        boll: BollResult { upper: d(10, 0), middle: None, lower: d(8, 0) },
        close: Decimal::from_i64(11),
        date: "2024-01-02".to_string(),
    };
    let text = format_report(&r, "X");
    assert!(!text.contains("MA:"));
    assert!(text.contains("MACD: DIF=2.00  DEA=N/A  柱=N/A\nRSI:  75.00\n      → 超买区域 (>70)\n"));
    assert!(text.contains("      → K在D上方 (金叉)\n      → J值超买 (>100)\n"));
    assert!(text.contains("      → 价格突破上轨 (超买)\n"));
}

#[test]
fn the_report_is_that_of_the_last_bar() {
    let code = StockCode::from_raw("600519").unwrap();
    let bars: Vec<Bar> = (1..=3)
        .map(|day| Bar {
            code: code.duplicate(),
            date: Date { year: 2024, month: 3, day },
            open: Decimal::from_i64(10),
            close: Decimal::from_i64(10 + day as i64),
            high: Decimal::from_i64(20),
            low: Decimal::from_i64(5),
            volume: 1,
            turnover: Decimal::zero(),
        })
        .collect();
    let ma5 = vec![None, None, d(12, 0)];
    let short = vec![d(1, 0)];
    let none = MacdResult { dif: None, dea: None, histogram: None };
    let report = build_indicator_report(
        &bars, &ma5, &short, &ma5, &vec![], &vec![none], &ma5,
        &vec![KdjResult { k: d(1, 0), d: d(2, 0), j: d(3, 0) }; 3],
        &vec![],
    )
    .unwrap();
    assert_eq!(report.date, "2024-03-03");
    assert_eq!(report.close, Decimal::from_i64(13));
    assert_eq!(report.ma[0].name, "MA5");
    assert_eq!(report.ma[0].value, d(12, 0));
    assert_eq!(report.ma[1].value, None);
    assert_eq!(report.ma[3].name, "MA60");
    assert!(report.macd.dif.is_none());
    assert_eq!(report.kdj.j, d(3, 0));
    assert!(report.boll.upper.is_none());
    assert!(build_indicator_report(&[], &vec![], &vec![], &vec![], &vec![], &vec![], &vec![], &vec![], &vec![]).is_none());
}

#[test]
fn two_equal_averages_show_no_alignment() {
    let mut r = readme_report();
    r.ma = vec![ma("MA5", d(138099, 2)), ma("MA10", d(1380990, 3))];
    let text = format_report(&r, "600519.SH");
    assert!(text.contains("MA:   MA5: 1380.99  MA10: 1380.99\n"));
    assert!(!text.contains("排列"));
}
