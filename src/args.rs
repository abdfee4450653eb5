use vstd::prelude::*;
use crate::date::{compact_of, CalendarDate};

verus! {

/// Reporting period of a query.
#[derive(Debug, Clone, Copy, PartialEq, Eq)]
pub enum DateType {
    Day,
    Week,
    Month,
}

impl DateType {
    /// The period's word on the wire (`type=` of the aggregate report).
    pub open spec fn wire(self) -> Seq<char> {
        match self {
            DateType::Day => "day"@,
            DateType::Week => "week"@,
            DateType::Month => "month"@,
        }
    }

    pub fn value(&self) -> (r: &'static str)
        ensures
            r@ == self.wire(),
    {
        match *self {
            DateType::Day => "day",
            DateType::Week => "week",
            DateType::Month => "month",
        }
    }
}

/// Exchange-assigned selector of the per-security report: an industry, a
/// security type or a special category.
#[derive(Debug, Clone, Copy, PartialEq, Eq)]
pub enum IndustryType {
    All,
    AllWithoutWarrantsAndCBBCs,
    ClosedEndFunds,
    ETF,
    ETN,
    BeneficialSecurities,
    SpecialStockWithOptions,
    CorporateBondsWithStockOptions,
    Warrants,
    Cement,
    Food,
    Plastic,
    TextileFiber,
    ElectricalMachinery,
    ElectricalCable,
    MedicalTechnology,
    Chemical,
    BiotechMedical,
    GlassCeramics,
    Paper,
    Metal,
    Rubber,
    Car,
    Electronics,
    Semiconductor,
    ComputerAndPeripheralEquipment,
    Optoelectronics,
    CommunicationNetwork,
    ElectronicComponents,
    ElectronicChannel,
    InformationService,
    OtherElectronics,
    BuildingMaterialsConstruction,
    Shipping,
    Tourism,
    FinancialInsurance,
    TradeDepartmentStore,
    OilAndElectricityAndGas,
    DepositoryReceipts,
    Comprehensive,
    Other,
    ConvertibleCorporateBonds,
}

impl IndustryType {
    /// The selector's code on the wire (`selectType=`).
    pub open spec fn wire(self) -> Seq<char> {
        match self {
            IndustryType::All => "ALL"@,
            IndustryType::AllWithoutWarrantsAndCBBCs => "ALLBUT0999"@,
            IndustryType::ClosedEndFunds => "0049"@,
            IndustryType::ETF => "ETF"@,
            IndustryType::ETN => "ETN"@,
            IndustryType::BeneficialSecurities => "019919T"@,
            IndustryType::SpecialStockWithOptions => "0999GA"@,
            IndustryType::CorporateBondsWithStockOptions => "0999GD"@,
            IndustryType::Warrants => "0999G9"@,
            IndustryType::Cement => "01"@,
            IndustryType::Food => "02"@,
            IndustryType::Plastic => "03"@,
            IndustryType::TextileFiber => "04"@,
            IndustryType::ElectricalMachinery => "05"@,
            IndustryType::ElectricalCable => "06"@,
            IndustryType::MedicalTechnology => "07"@,
            IndustryType::Chemical => "21"@,
            IndustryType::BiotechMedical => "22"@,
            IndustryType::GlassCeramics => "08"@,
            IndustryType::Paper => "09"@,
            IndustryType::Metal => "10"@,
            IndustryType::Rubber => "11"@,
            IndustryType::Car => "12"@,
            IndustryType::Electronics => "13"@,
            IndustryType::Semiconductor => "24"@,
            IndustryType::ComputerAndPeripheralEquipment => "25"@,
            IndustryType::Optoelectronics => "26"@,
            IndustryType::CommunicationNetwork => "27"@,
            IndustryType::ElectronicComponents => "28"@,
            IndustryType::ElectronicChannel => "29"@,
            IndustryType::InformationService => "30"@,
            IndustryType::OtherElectronics => "31"@,
            IndustryType::BuildingMaterialsConstruction => "14"@,
            IndustryType::Shipping => "15"@,
            IndustryType::Tourism => "16"@,
            IndustryType::FinancialInsurance => "17"@,
            IndustryType::TradeDepartmentStore => "18"@,
            IndustryType::OilAndElectricityAndGas => "23"@,
            IndustryType::DepositoryReceipts => "9299"@,
            IndustryType::Comprehensive => "19"@,
            IndustryType::Other => "20"@,
            IndustryType::ConvertibleCorporateBonds => "CB"@,
        }
    }

    pub fn value(&self) -> (r: &'static str)
        ensures
            r@ == self.wire(),
    {
        match *self {
            IndustryType::All => "ALL",
            IndustryType::AllWithoutWarrantsAndCBBCs => "ALLBUT0999",
            IndustryType::ClosedEndFunds => "0049",
            IndustryType::ETF => "ETF",
            IndustryType::ETN => "ETN",
            IndustryType::BeneficialSecurities => "019919T",
            IndustryType::SpecialStockWithOptions => "0999GA",
            IndustryType::CorporateBondsWithStockOptions => "0999GD",
            IndustryType::Warrants => "0999G9",
            IndustryType::Cement => "01",
            IndustryType::Food => "02",
            IndustryType::Plastic => "03",
            IndustryType::TextileFiber => "04",
            IndustryType::ElectricalMachinery => "05",
            IndustryType::ElectricalCable => "06",
            IndustryType::MedicalTechnology => "07",
            IndustryType::Chemical => "21",
            IndustryType::BiotechMedical => "22",
            IndustryType::GlassCeramics => "08",
            IndustryType::Paper => "09",
            IndustryType::Metal => "10",
            IndustryType::Rubber => "11",
            IndustryType::Car => "12",
            IndustryType::Electronics => "13",
            IndustryType::Semiconductor => "24",
            IndustryType::ComputerAndPeripheralEquipment => "25",
            IndustryType::Optoelectronics => "26",
            IndustryType::CommunicationNetwork => "27",
            IndustryType::ElectronicComponents => "28",
            IndustryType::ElectronicChannel => "29",
            IndustryType::InformationService => "30",
            IndustryType::OtherElectronics => "31",
            IndustryType::BuildingMaterialsConstruction => "14",
            IndustryType::Shipping => "15",
            IndustryType::Tourism => "16",
            IndustryType::FinancialInsurance => "17",
            IndustryType::TradeDepartmentStore => "18",
            IndustryType::OilAndElectricityAndGas => "23",
            IndustryType::DepositoryReceipts => "9299",
            IndustryType::Comprehensive => "19",
            IndustryType::Other => "20",
            IndustryType::ConvertibleCorporateBonds => "CB",
        }
    }
}

/// Every period has a non-empty word of its own.
pub proof fn lemma_date_type_values_distinct(a: DateType, b: DateType)
    ensures
        a.wire().len() > 0,
        a != b ==> a.wire() != b.wire(),
{
    reveal_strlit("day");
    reveal_strlit("week");
    reveal_strlit("month");
    if a != b && a.wire() == b.wire() {
        assert(a.wire().len() == b.wire().len());
        assert(a.wire()[0] == b.wire()[0] && a.wire()[1] == b.wire()[1] && a.wire()[2] == b.wire()[2] && a.wire()[3] == b.wire()[3] && a.wire()[4] == b.wire()[4]);
    }
}

/// Every selector has a non-empty code of its own.
pub proof fn lemma_industry_values_distinct(a: IndustryType, b: IndustryType)
    ensures
        a.wire().len() > 0,
        a != b ==> a.wire() != b.wire(),
{
    reveal_strlit("ALL");
    reveal_strlit("ALLBUT0999");
    reveal_strlit("0049");
    reveal_strlit("ETF");
    reveal_strlit("ETN");
    reveal_strlit("019919T");
    reveal_strlit("0999GA");
    reveal_strlit("0999GD");
    reveal_strlit("0999G9");
    reveal_strlit("01");
    reveal_strlit("02");
    reveal_strlit("03");
    reveal_strlit("04");
    reveal_strlit("05");
    reveal_strlit("06");
    reveal_strlit("07");
    reveal_strlit("21");
    reveal_strlit("22");
    reveal_strlit("08");
    reveal_strlit("09");
    reveal_strlit("10");
    reveal_strlit("11");
    reveal_strlit("12");
    reveal_strlit("13");
    reveal_strlit("24");
    reveal_strlit("25");
    reveal_strlit("26");
    reveal_strlit("27");
    reveal_strlit("28");
    reveal_strlit("29");
    reveal_strlit("30");
    reveal_strlit("31");
    reveal_strlit("14");
    reveal_strlit("15");
    reveal_strlit("16");
    reveal_strlit("17");
    reveal_strlit("18");
    reveal_strlit("23");
    reveal_strlit("9299");
    reveal_strlit("19");
    reveal_strlit("20");
    reveal_strlit("CB");
    if a != b && a.wire() == b.wire() {
        assert(a.wire().len() == b.wire().len());
        assert(a.wire()[0] == b.wire()[0] && a.wire()[1] == b.wire()[1] && a.wire()[2] == b.wire()[2] && a.wire()[3] == b.wire()[3] && a.wire()[4] == b.wire()[4] && a.wire()[5] == b.wire()[5] && a.wire()[6] == b.wire()[6] && a.wire()[7] == b.wire()[7] && a.wire()[8] == b.wire()[8] && a.wire()[9] == b.wire()[9]);
    }
}

/// Query of the market-wide report, per investor category.
#[derive(Debug, Clone, Copy)]
pub struct TotalInstitutionInvestorsArgs {
    pub date: CalendarDate,
    pub date_type: DateType,
}

/// Query of the per-security report.
#[derive(Debug, Clone, Copy)]
pub struct SingleStockInstitutionalInvestorsArgs {
    pub date: CalendarDate,
    pub date_type: DateType,
    pub industry_type: IndustryType,
}

/// An outgoing GET request: endpoint and query parameters, in order.
#[derive(Debug, Clone)]
pub struct QueryRequest {
    pub url: String,
    pub params: Vec<(String, String)>,
}

impl QueryRequest {
    pub open spec fn params_view(&self) -> Seq<(Seq<char>, Seq<char>)> {
        self.params@.map_values(|p: (String, String)| (p.0@, p.1@))
    }
}

/// Endpoint of the market-wide report, whatever the period.
pub open spec fn total_link() -> Seq<char> {
    "https://www.twse.com.tw/fund/BFI82U"@
}

/// Endpoint of the per-security report for a period.
pub open spec fn single_stock_link(t: DateType) -> Seq<char> {
    match t {
        DateType::Day => "https://www.twse.com.tw/fund/T86"@,
        DateType::Week => "https://www.twse.com.tw/fund/TWT54U"@,
        DateType::Month => "https://www.twse.com.tw/fund/TWT47U"@,
    }
}

/// Name of the market-wide report's date parameter for a period.
pub open spec fn total_date_key(t: DateType) -> Seq<char> {
    match t {
        DateType::Day => "dayDate"@,
        DateType::Week => "weekDate"@,
        DateType::Month => "monthDate"@,
    }
}

pub open spec fn compact_date(d: CalendarDate) -> Seq<char> {
    compact_of(d@.0, d@.1, d@.2)
}

fn pair(k: &str, v: &str) -> (r: (String, String))
    ensures
        r.0@ == k@,
        r.1@ == v@,
{
    (k.to_owned(), v.to_owned())
}

impl TotalInstitutionInvestorsArgs {
    /// The request for this query: one endpoint, with the date under a
    /// period-specific name and the period as `type`.
    pub fn request(&self) -> (r: QueryRequest)
        ensures
            r.url@ == total_link(),
            r.params_view() == seq![
                ("response"@, "json"@),
                (total_date_key(self.date_type), compact_date(self.date)),
                ("type"@, self.date_type.wire()),
            ],
    {
        let date = self.date.to_compact();
        let key = match self.date_type {
            DateType::Day => "dayDate",
            DateType::Week => "weekDate",
            DateType::Month => "monthDate",
        };
        let mut params: Vec<(String, String)> = Vec::new();
        params.push(pair("response", "json"));
        params.push(pair(key, date.as_str()));
        params.push(pair("type", self.date_type.value()));
        let r = QueryRequest { url: "https://www.twse.com.tw/fund/BFI82U".to_owned(), params };
        assert(r.params_view() =~= seq![
            ("response"@, "json"@),
            (total_date_key(self.date_type), compact_date(self.date)),
            ("type"@, self.date_type.wire()),
        ]);
        r
    }
}

impl SingleStockInstitutionalInvestorsArgs {
    /// The request for this query: a period-specific endpoint, with the date
    /// and the selector's code.
    pub fn request(&self) -> (r: QueryRequest)
        ensures
            r.url@ == single_stock_link(self.date_type),
            r.params_view() == seq![
                ("response"@, "json"@),
                ("date"@, compact_date(self.date)),
                ("selectType"@, self.industry_type.wire()),
            ],
    {
        let date = self.date.to_compact();
        let url = match self.date_type {
            DateType::Day => "https://www.twse.com.tw/fund/T86",
            DateType::Week => "https://www.twse.com.tw/fund/TWT54U",
            DateType::Month => "https://www.twse.com.tw/fund/TWT47U",
        };
        let mut params: Vec<(String, String)> = Vec::new();
        params.push(pair("response", "json"));
        params.push(pair("date", date.as_str()));
        params.push(pair("selectType", self.industry_type.value()));
        let r = QueryRequest { url: url.to_owned(), params };
        assert(r.params_view() =~= seq![
            ("response"@, "json"@),
            ("date"@, compact_date(self.date)),
            ("selectType"@, self.industry_type.wire()),
        ]);
        r
    }
}

} // verus!
