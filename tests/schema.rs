use twse_flows::schema::{
    Data, Response, RowShape, SingleStockInstitutionalInvestors, TotalInstitutionalInvestors,
};
use twse_flows::errors::TwseError;
use twse_flows::feed::RawResponse;

const TOTAL_BODY: &str = r#"
        {
            "stat":"OK",
            "title":"110年02月05日 三大法人買賣金額統計表",
            "fields":["單位名稱","買進金額","賣出金額","買賣差額"],
            "date":"20210205",
            "data":[
                ["自營商(自行買賣)","3,720,692,397","2,657,469,622","1,063,222,775"],
                ["自營商(避險)","7,930,149,338","6,161,180,878","1,768,968,460"],
                ["投信","2,305,132,480","1,693,938,980","611,193,500"],
                ["外資及陸資","73,576,875,154","79,202,203,729","-5,625,328,575"],
                ["合計","87,532,849,369","89,714,793,209","-2,181,943,840"]
            ],
            "params":{"controller":"fund","format":null,"action":"BFI82U","lang":"zh","monthDate":"20210205","weekDate":"20210201","dayDate":"20210205"},
            "notes":[
                "自營商表示證券自營商專戶。",
                "投信表示本國投資信託基金。",
                "外資及陸資表示依「華僑及外國人投資證券管理辦法」及「大陸地區投資人來臺從事證券投資及期貨交易管理辦法」辦理登記等投資人。",
                "本統計資訊含一般、零股、盤後定價、鉅額，不含拍賣、標購。",
                "本資訊以當日原始成交情形統計，不以證券商申報錯帳、更正帳號等調整後資料統計。"
            ]
        }
        "#;

const SINGLE_BODY: &str = r#"
        {
            "stat":"OK",
            "date":"20210205",
            "title":"110年02月05日 三大法人買賣超日報",
            "fields":[
                "證券代號",
                "證券名稱",
                "外陸資買進股數(不含外資自營商)",
                "外陸資賣出股數(不含外資自營商)",
                "外陸資買賣超股數(不含外資自營商)",
                "外資自營商買進股數",
                "外資自營商賣出股數",
                "外資自營商買賣超股數",
                "投信買進股數",
                "投信賣出股數",
                "投信買賣超股數",
                "自營商買賣超股數",
                "自營商買進股數(自行買賣)",
                "自營商賣出股數(自行買賣)",
                "自營商買賣超股數(自行買賣)",
                "自營商買進股數(避險)",
                "自營商賣出股數(避險)",
                "自營商買賣超股數(避險)",
                "三大法人買賣超股數"
            ],
            "data":[
                ["1104","環泥            ","121,000","86,000","35,000","0","0","0","0","0","0","3,000","3,000","0","3,000","0","0","0","38,000"],
                ["1108","幸福            ","46,000","30,000","16,000","0","0","0","0","0","0","2,000","2,000","0","2,000","0","0","0","18,000"],
                ["1109","信大            ","32,000","25,000","7,000","0","0","0","0","0","0","0","0","0","0","0","0","0","7,000"],
                ["1101B","台泥乙特        ","0","0","0","0","0","0","0","0","0","1,000","1,000","0","1,000","0","0","0","1,000"]
            ],
            "selectType":"01",
            "notes":[
                "自營商表示證券自營商專戶。",
                "投信表示本國投資信託基金。",
                "外資及陸資表示依「華僑及外國人投資證券管理辦法」及「大陸地區投資人來臺從事證券投資及期貨交易管理辦法」辦理登記等投資人。",
                "外資自營商買賣股數已計入自營商買賣股數，故不納入三大法人買賣股數之合計數計算。",
                "本統計資訊含一般、零股、盤後定價、鉅額，不含拍賣、標購。",
                "本資訊以當日原始成交情形統計，不以證券商申報錯帳、更正帳號等調整後資料統計。",
                "ETF證券代號第六碼為K、M、S、C者，表示該ETF以外幣交易。"
            ]
        }
        "#;


/// The answer's members, read with serde_json as the feed's client reads them.
fn read(body: &str) -> RawResponse {
    let v: serde_json::Value = serde_json::from_str(body).expect("serde_json::from_str failed");
    let text = |k: &str| v.get(k).and_then(|m| m.as_str()).map(|m| m.to_string());
    let list = |m: &serde_json::Value| -> Vec<String> {
        m.as_array().unwrap().iter().map(|c| c.as_str().unwrap().to_string()).collect()
    };
    RawResponse {
        stat: text("stat").unwrap(),
        date: text("date"),
        title: text("title"),
        fields: v.get("fields").map(list),
        data: v.get("data").map(|d| d.as_array().unwrap().iter().map(list).collect()),
    }
}

fn raw(stat: &str, date: Option<&str>, data: Option<Vec<Vec<String>>>) -> RawResponse {
    RawResponse {
        stat: stat.to_string(),
        date: date.map(|d| d.to_string()),
        title: Some("t".to_string()),
        fields: Some(vec!["a".to_string()]),
        data,
    }
}

fn total(name: &str, buy: u64, sell: u64, difference: i64) -> TotalInstitutionalInvestors {
    TotalInstitutionalInvestors { name: name.to_string(), buy, sell, difference }
}

fn single(
    stock_id: &str,
    stock_name: &str,
    foreign: (u64, u64, i64),
    dealer_total_difference: i64,
    dealer_self: (u64, u64, i64),
    total_difference: i64,
) -> SingleStockInstitutionalInvestors {
    SingleStockInstitutionalInvestors {
        stock_id: stock_id.to_string(),
        stock_name: stock_name.to_string(),
        foreign_investor_buy: foreign.0,
        foreign_investor_sell: foreign.1,
        foreign_investor_difference: foreign.2,
        foreign_dealer_self_buy: 0,
        foreign_dealer_self_sell: 0,
        foreign_dealer_self_difference: 0,
        investment_trust_buy: 0,
        investment_trust_sell: 0,
        investment_trust_difference: 0,
        dealer_total_difference,
        dealer_self_buy: dealer_self.0,
        dealer_self_sell: dealer_self.1,
        dealer_self_difference: dealer_self.2,
        dealer_hedging_buy: 0,
        dealer_hedging_sell: 0,
        dealer_difference: 0,
        total_difference,
    }
}

fn row(cells: &[&str]) -> Vec<String> {
    cells.iter().map(|c| c.to_string()).collect()
}

#[test]
fn test_response_with_total_institutional_investors() {
    let result = Response::from_raw(read(TOTAL_BODY)).expect("from_raw failed");

    assert_eq!(result.stat, "OK");
    assert_eq!(result.data.len(), 5);

    let wants = [
        total("自營商(自行買賣)", 3720692397, 2657469622, 1063222775),
        total("自營商(避險)", 7930149338, 6161180878, 1768968460),
        total("投信", 2305132480, 1693938980, 611193500),
        total("外資及陸資", 73576875154, 79202203729, -5625328575),
        total("合計", 87532849369, 89714793209, -2181943840),
    ];

    for n in 0..result.data.len() {
        let d = Data::decode(n, &result.data[n], RowShape::Total).expect("row decode failed");
        if let Data::TotalInstitutionalInvestors(d) = &d {
            assert_eq!(d.buy, wants[n].buy);
            assert_eq!(d.sell, wants[n].sell);
            assert_eq!(d.difference, wants[n].difference);
            assert_eq!(d.name, wants[n].name);
        } else {
            panic!("data vector index {} cannot cast out", n);
        }
    }
}

#[test]
fn test_response_with_single_stock_institutional_investors() {
    let result = Response::from_raw(read(SINGLE_BODY)).expect("from_raw failed");

    assert_eq!(result.stat, "OK");
    assert_eq!(result.data.len(), 4);

    let wants = [
        single("1104", "環泥", (121000, 86000, 35000), 3000, (3000, 0, 3000), 38000),
        single("1108", "幸福", (46000, 30000, 16000), 2000, (2000, 0, 2000), 18000),
        single("1109", "信大", (32000, 25000, 7000), 0, (0, 0, 0), 7000),
        single("1101B", "台泥乙特", (0, 0, 0), 1000, (1000, 0, 1000), 1000),
        single("1110", "東泥", (28000, 31000, -3000), 0, (0, 0, 0), -3000),
    ];

    for n in 0..result.data.len() {
        let d = Data::decode(n, &result.data[n], RowShape::SingleStock).expect("row decode failed");
        if let Data::SingleStockInstitutionalInvestors(d) = &d {
            let w = &wants[n];
            assert_eq!(d.stock_id, w.stock_id);
            assert_eq!(d.stock_name, w.stock_name);
            assert_eq!(d.foreign_investor_buy, w.foreign_investor_buy);
            assert_eq!(d.foreign_investor_sell, w.foreign_investor_sell);
            assert_eq!(d.foreign_investor_difference, w.foreign_investor_difference);
            assert_eq!(d.foreign_dealer_self_buy, w.foreign_dealer_self_buy);
            assert_eq!(d.foreign_dealer_self_sell, w.foreign_dealer_self_sell);
            assert_eq!(d.foreign_dealer_self_difference, w.foreign_dealer_self_difference);
            assert_eq!(d.investment_trust_buy, w.investment_trust_buy);
            assert_eq!(d.investment_trust_sell, w.investment_trust_sell);
            assert_eq!(d.investment_trust_difference, w.investment_trust_difference);
            assert_eq!(d.dealer_total_difference, w.dealer_total_difference);
            assert_eq!(d.dealer_self_buy, w.dealer_self_buy);
            assert_eq!(d.dealer_self_sell, w.dealer_self_sell);
            assert_eq!(d.dealer_self_difference, w.dealer_self_difference);
            assert_eq!(d.dealer_hedging_buy, w.dealer_hedging_buy);
            assert_eq!(d.dealer_hedging_sell, w.dealer_hedging_sell);
            assert_eq!(d.dealer_difference, w.dealer_difference);
            assert_eq!(d.total_difference, w.total_difference);
        } else {
            panic!("data vector index {} cannot cast out", n);
        }
    }
}

#[test]
fn total_report_decodes_all_five_categories() {
    let resp = Response::from_raw(read(TOTAL_BODY)).unwrap();
    assert_eq!(resp.date.year(), 2021);
    assert_eq!(resp.date.month(), 2);
    assert_eq!(resp.date.day(), 5);
    assert_eq!(resp.fields.len(), 4);
    assert_eq!(resp.fields[0], "單位名稱");
    let records = resp.total_institutional_investors().unwrap();
    let got: Vec<(u64, u64, i64)> = records.iter().map(|r| (r.buy, r.sell, r.difference)).collect();
    assert_eq!(
        got,
        vec![
            (3720692397, 2657469622, 1063222775),
            (7930149338, 6161180878, 1768968460),
            (2305132480, 1693938980, 611193500),
            (73576875154, 79202203729, -5625328575),
            (87532849369, 89714793209, -2181943840),
        ]
    );
}

#[test]
fn single_stock_report_strips_name_padding() {
    let resp = Response::from_raw(read(SINGLE_BODY)).unwrap();
    let records = resp.single_stock_institutional_investors().unwrap();
    assert_eq!(records.len(), 4);
    assert_eq!(records[3].stock_id, "1101B");
    assert_eq!(records[3].stock_name, "台泥乙特");
    assert_eq!(records[0].total_difference, 38000);
}

#[test]
fn non_ok_status_is_upstream_error_even_with_good_rows() {
    let body = TOTAL_BODY.replacen("\"stat\":\"OK\"", "\"stat\":\"查詢日期大於今日，請重新查詢!\"", 1);
    match Response::from_raw(read(&body)) {
        Err(TwseError::TWSEError(s)) => assert_eq!(s, "查詢日期大於今日，請重新查詢!"),
        other => panic!("unexpected {:?}", other),
    }
    let mut resp = Response::from_raw(read(TOTAL_BODY)).unwrap();
    resp.stat = "FAIL".to_string();
    assert_eq!(
        resp.total_institutional_investors().unwrap_err(),
        TwseError::TWSEError("FAIL".to_string())
    );
    assert_eq!(
        resp.single_stock_institutional_investors().unwrap_err(),
        TwseError::TWSEError("FAIL".to_string())
    );
}

#[test]
fn answer_without_data_for_a_far_date_is_an_error() {
    let body = r#"{"stat":"很抱歉，沒有符合條件的資料!"}"#;
    assert!(matches!(
        twse_flows::feed::decode_single_stock_institutional_investors(read(body)),
        Err(TwseError::TWSEError(_))
    ));
    assert!(matches!(
        twse_flows::feed::decode_total_institution_investors(read(body)),
        Err(TwseError::TWSEError(_))
    ));
}

#[test]
fn decode_functions_read_whole_answers() {
    let v = twse_flows::feed::decode_total_institution_investors(read(TOTAL_BODY)).unwrap();
    assert_eq!(v.len(), 5);
    assert_eq!(v[4].name, "合計");
    let s = twse_flows::feed::decode_single_stock_institutional_investors(read(SINGLE_BODY)).unwrap();
    assert_eq!(s.len(), 4);
    assert_eq!(s[1].stock_name, "幸福");
}

#[test]
fn row_one_cell_short_is_shape_mismatch() {
    let r = row(&["投信", "2,305,132,480", "1,693,938,980"]);
    assert_eq!(
        TotalInstitutionalInvestors::from_row(2, &r).unwrap_err(),
        TwseError::ShapeMismatch { row: 2, expected: 4, found: 3 }
    );
    let mut r19 = row(&["1104", "環泥", "121,000", "86,000", "35,000", "0", "0", "0", "0", "0", "0",
        "3,000", "3,000", "0", "3,000", "0", "0", "0", "38,000"]);
    r19.pop();
    assert_eq!(
        SingleStockInstitutionalInvestors::from_row(0, &r19).unwrap_err(),
        TwseError::ShapeMismatch { row: 0, expected: 19, found: 18 }
    );
}

#[test]
fn extra_trailing_cells_are_ignored() {
    let r = row(&["投信", "1", "2", "-3", "note"]);
    let t = TotalInstitutionalInvestors::from_row(0, &r).unwrap();
    assert_eq!((t.buy, t.sell, t.difference), (1, 2, -3));
}

#[test]
fn bad_cell_names_row_field_and_text() {
    let r = row(&["投信", "1", "x2", "-3"]);
    assert_eq!(
        TotalInstitutionalInvestors::from_row(7, &r).unwrap_err(),
        TwseError::BadNumber { row: 7, field: "sell".to_string(), raw: "x2".to_string() }
    );
    let r = row(&["投信", "-1", "2", "-3"]);
    assert_eq!(
        TotalInstitutionalInvestors::from_row(1, &r).unwrap_err(),
        TwseError::BadNumber { row: 1, field: "buy".to_string(), raw: "-1".to_string() }
    );
}

#[test]
fn batch_fails_on_first_bad_row() {
    let rows = vec![
        row(&["a", "1", "2", "3"]),
        row(&["b", "1", "2"]),
        row(&["c", "z", "2", "3"]),
    ];
    assert_eq!(
        twse_flows::schema::decode_total_rows(&rows).unwrap_err(),
        TwseError::ShapeMismatch { row: 1, expected: 4, found: 3 }
    );
    let ok = vec![row(&["a", "1", "2", "3"]), row(&["b", "4", "5", "-6"])];
    let v = twse_flows::schema::decode_total_rows(&ok).unwrap();
    assert_eq!(v.len(), 2);
    assert_eq!(v[1].difference, -6);
    assert!(twse_flows::schema::decode_single_stock_rows(&ok).is_err());
}

#[test]
fn wrong_variant_is_enum_casting_error() {
    let t = Data::decode(0, &row(&["a", "1", "2", "3"]), RowShape::Total).unwrap();
    assert_eq!(t.clone().into_single_stock().unwrap_err(), TwseError::EnumCastingError);
    assert_eq!(t.into_total().unwrap().name, "a");
}

#[test]
fn incomplete_answers_are_json_or_date_errors() {
    let rows = vec![row(&["a", "1", "2", "3"])];
    assert_eq!(Response::from_raw(raw("OK", None, Some(rows.clone()))).unwrap_err(), TwseError::JsonError);
    assert_eq!(Response::from_raw(raw("OK", Some("20210205"), None)).unwrap_err(), TwseError::JsonError);
    assert_eq!(
        Response::from_raw(raw("OK", Some("20210230"), Some(rows.clone()))).unwrap_err(),
        TwseError::BadDate { raw: "20210230".to_string() }
    );
    assert_eq!(
        twse_flows::feed::decode_total_institution_investors(raw("FAIL", None, None)).unwrap_err(),
        TwseError::TWSEError("FAIL".to_string())
    );
    let v = twse_flows::feed::decode_total_institution_investors(raw("OK", Some("20210205"), Some(rows))).unwrap();
    assert_eq!((v[0].buy, v[0].sell, v[0].difference), (1, 2, 3));
    let empty = Response::from_raw(raw("OK", Some("20210205"), Some(vec![]))).unwrap();
    assert_eq!(empty.title, "t");
    assert!(empty.total_institutional_investors().unwrap().is_empty());
}

#[test]
fn status_check_is_exact() {
    assert!(twse_flows::schema::is_status_ok(&"OK".to_string()));
    assert!(!twse_flows::schema::is_status_ok(&"ok".to_string()));
    assert!(!twse_flows::schema::is_status_ok(&"OK ".to_string()));
}
