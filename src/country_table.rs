//! The reference table of countries: name, international phone code and
//! ISO 3166 alpha-2 and alpha-3 codes, in order of name.

use crate::countries::Country;
use vstd::prelude::*;

verus! {

fn record(name: &str, phone_code: &str, iso_2_code: &str, iso_3_code: &str) -> (r: Country)
    ensures
        r.name@ == name@,
        r.phone_code@ == phone_code@,
        r.iso_2_code@ == iso_2_code@,
        r.iso_3_code@ == iso_3_code@,
{
    Country::new(name.to_owned(), phone_code.to_owned(), iso_2_code.to_owned(), iso_3_code.to_owned())
}
fn append_part_1(list: &mut Vec<Country>)
    ensures
        final(list)@.len() == old(list)@.len() + 40,
        final(list)@.take(old(list)@.len() as int) == old(list)@,
        old(list)@.len() == 0 ==> {
            &&& final(list)@[0].name@ == "Afghanistan"@
            &&& final(list)@[0].phone_code@ == "93"@
            &&& final(list)@[0].iso_2_code@ == "AF"@
            &&& final(list)@[0].iso_3_code@ == "AFG"@
        },
{
    let ghost start = list@;
    list.push(record("Afghanistan", "93", "AF", "AFG"));
    list.push(record("Albania", "355", "AL", "ALB"));
    list.push(record("Algeria", "213", "DZ", "DZA"));
    list.push(record("American Samoa", "1-684", "AS", "ASM"));
    list.push(record("Andorra", "376", "AD", "AND"));
    list.push(record("Angola", "244", "AO", "AGO"));
    list.push(record("Anguilla", "1-264", "AI", "AIA"));
    list.push(record("Antarctica", "672", "AQ", "ATA"));
    list.push(record("Antigua and Barbuda", "1-268", "AG", "ATG"));
    list.push(record("Argentina", "54", "AR", "ARG"));
    list.push(record("Armenia", "374", "AM", "ARM"));
    list.push(record("Aruba", "297", "AW", "ABW"));
    list.push(record("Australia", "61", "AU", "AUS"));
    list.push(record("Austria", "43", "AT", "AUT"));
    list.push(record("Azerbaijan", "994", "AZ", "AZE"));
    list.push(record("Bahamas", "1-242", "BS", "BHS"));
    list.push(record("Bahrain", "973", "BH", "BHR"));
    list.push(record("Bangladesh", "880", "BD", "BGD"));
    list.push(record("Barbados", "1-246", "BB", "BRB"));
    list.push(record("Belarus", "375", "BY", "BLR"));
    list.push(record("Belgium", "32", "BE", "BEL"));
    list.push(record("Belize", "501", "BZ", "BLZ"));
    list.push(record("Benin", "229", "BJ", "BEN"));
    list.push(record("Bermuda", "1-441", "BM", "BMU"));
    list.push(record("Bhutan", "975", "BT", "BTN"));
    list.push(record("Bolivia", "591", "BO", "BOL"));
    list.push(record("Bosnia and Herzegovina", "387", "BA", "BIH"));
    list.push(record("Botswana", "267", "BW", "BWA"));
    list.push(record("Bouvet Island", "47", "BV", "BVT"));
    list.push(record("Brazil", "55", "BR", "BRA"));
    list.push(record("British Indian Ocean Territory", "246", "IO", "IOT"));
    list.push(record("Brunei Darussalam", "673", "BN", "BRN"));
    list.push(record("Bulgaria", "359", "BG", "BGR"));
    list.push(record("Burkina Faso", "226", "BF", "BFA"));
    list.push(record("Burundi", "257", "BI", "BDI"));
    list.push(record("Cambodia", "855", "KH", "KHM"));
    list.push(record("Cameroon", "237", "CM", "CMR"));
    list.push(record("Canada", "1", "CA", "CAN"));
    list.push(record("Cape Verde", "238", "CV", "CPV"));
    list.push(record("Cayman Islands", "1-345", "KY", "CYM"));
    assert(list@.take(start.len() as int) =~= start);
}

fn append_part_2(list: &mut Vec<Country>)
    ensures
        final(list)@.len() == old(list)@.len() + 40,
        final(list)@.take(old(list)@.len() as int) == old(list)@,
{
    let ghost start = list@;
    list.push(record("Central African Republic", "236", "CF", "CAF"));
    list.push(record("Chad", "235", "TD", "TCD"));
    list.push(record("Chile", "56", "CL", "CHL"));
    list.push(record("China", "86", "CN", "CHN"));
    list.push(record("Christmas Island", "61", "CX", "CXR"));
    list.push(record("Cocos (Keeling) Islands", "61", "CC", "CCK"));
    list.push(record("Colombia", "57", "CO", "COL"));
    list.push(record("Comoros", "269", "KM", "COM"));
    list.push(record("Congo", "242", "CG", "COG"));
    list.push(record("Congo, the Democratic Republic of the", "243", "CD", "COD"));
    list.push(record("Cook Islands", "682", "CK", "COK"));
    list.push(record("Costa Rica", "506", "CR", "CRI"));
    list.push(record("Cote d'Ivoire", "225", "CI", "CIV"));
    list.push(record("Croatia", "385", "HR", "HRV"));
    list.push(record("Cuba", "53", "CU", "CUB"));
    list.push(record("Cyprus", "357", "CY", "CYP"));
    list.push(record("Czech Republic", "420", "CZ", "CZE"));
    list.push(record("Denmark", "45", "DK", "DNK"));
    list.push(record("Djibouti", "253", "DJ", "DJI"));
    list.push(record("Dominica", "1-767", "DM", "DMA"));
    list.push(record("Dominican Republic", "1-809", "DO", "DOM"));
    list.push(record("Ecuador", "593", "EC", "ECU"));
    list.push(record("Egypt", "20", "EG", "EGY"));
    list.push(record("El Salvador", "503", "SV", "SLV"));
    list.push(record("Equatorial Guinea", "240", "GQ", "GNQ"));
    list.push(record("Eritrea", "291", "ER", "ERI"));
    list.push(record("Estonia", "372", "EE", "EST"));
    list.push(record("Ethiopia", "251", "ET", "ETH"));
    list.push(record("Falkland Islands (Malvinas)", "500", "FK", "FLK"));
    list.push(record("Faroe Islands", "298", "FO", "FRO"));
    list.push(record("Fiji", "679", "FJ", "FJI"));
    list.push(record("Finland", "358", "FI", "FIN"));
    list.push(record("France", "33", "FR", "FRA"));
    list.push(record("French Guiana", "594", "GF", "GUF"));
    list.push(record("French Polynesia", "689", "PF", "PYF"));
    list.push(record("French Southern Territories", "262", "TF", "ATF"));
    list.push(record("Gabon", "241", "GA", "GAB"));
    list.push(record("Gambia", "220", "GM", "GMB"));
    list.push(record("Georgia", "995", "GE", "GEO"));
    list.push(record("Germany", "49", "DE", "DEU"));
    assert(list@.take(start.len() as int) =~= start);
}

fn append_part_3(list: &mut Vec<Country>)
    ensures
        final(list)@.len() == old(list)@.len() + 40,
        final(list)@.take(old(list)@.len() as int) == old(list)@,
{
    let ghost start = list@;
    list.push(record("Ghana", "233", "GH", "GHA"));
    list.push(record("Gibraltar", "350", "GI", "GIB"));
    list.push(record("Greece", "30", "GR", "GRC"));
    list.push(record("Greenland", "299", "GL", "GRL"));
    list.push(record("Grenada", "1-473", "GD", "GRD"));
    list.push(record("Guadeloupe", "590", "GP", "GLP"));
    list.push(record("Guam", "1-671", "GU", "GUM"));
    list.push(record("Guatemala", "502", "GT", "GTM"));
    list.push(record("Guernsey", "44-1481", "GG", "GGY"));
    list.push(record("Guinea", "224", "GN", "GIN"));
    list.push(record("Guinea-Bissau", "245", "GW", "GNB"));
    list.push(record("Guyana", "592", "GY", "GUY"));
    list.push(record("Haiti", "509", "HT", "HTI"));
    list.push(record("Holy See (Vatican City State)", "379", "VA", "VAT"));
    list.push(record("Honduras", "504", "HN", "HND"));
    list.push(record("Hong Kong", "852", "HK", "HKG"));
    list.push(record("Hungary", "36", "HU", "HUN"));
    list.push(record("Iceland", "354", "IS", "ISL"));
    list.push(record("India", "91", "IN", "IND"));
    list.push(record("Indonesia", "62", "ID", "IDN"));
    list.push(record("Iran, Islamic Republic of", "98", "IR", "IRN"));
    list.push(record("Iraq", "964", "IQ", "IRQ"));
    list.push(record("Ireland", "353", "IE", "IRL"));
    list.push(record("Isle of Man", "44-1624", "IM", "IMN"));
    list.push(record("Israel", "972", "IL", "ISR"));
    list.push(record("Italy", "39", "IT", "ITA"));
    list.push(record("Jamaica", "1-876", "JM", "JAM"));
    list.push(record("Japan", "81", "JP", "JPN"));
    list.push(record("Jersey", "44-1534", "JE", "JEY"));
    list.push(record("Jordan", "962", "JO", "JOR"));
    list.push(record("Kazakhstan", "7", "KZ", "KAZ"));
    list.push(record("Kenya", "254", "KE", "KEN"));
    list.push(record("Kiribati", "686", "KI", "KIR"));
    list.push(record("Korea, Democratic People's Republic of", "850", "KP", "PRK"));
    list.push(record("Korea, Republic of", "82", "KR", "KOR"));
    list.push(record("Kuwait", "965", "KW", "KWT"));
    list.push(record("Kyrgyzstan", "996", "KG", "KGZ"));
    list.push(record("Lao People's Democratic Republic", "856", "LA", "LAO"));
    list.push(record("Latvia", "371", "LV", "LVA"));
    list.push(record("Lebanon", "961", "LB", "LBN"));
    assert(list@.take(start.len() as int) =~= start);
}

fn append_part_4(list: &mut Vec<Country>)
    ensures
        final(list)@.len() == old(list)@.len() + 40,
        final(list)@.take(old(list)@.len() as int) == old(list)@,
{
    let ghost start = list@;
    list.push(record("Lesotho", "266", "LS", "LSO"));
    list.push(record("Liberia", "231", "LR", "LBR"));
    list.push(record("Libya", "218", "LY", "LBY"));
    list.push(record("Liechtenstein", "423", "LI", "LIE"));
    list.push(record("Lithuania", "370", "LT", "LTU"));
    list.push(record("Luxembourg", "352", "LU", "LUX"));
    list.push(record("Macao", "853", "MO", "MAC"));
    list.push(record("Macedonia, the Former Yugoslav Republic of", "389", "MK", "MKD"));
    list.push(record("Madagascar", "261", "MG", "MDG"));
    list.push(record("Malawi", "265", "MW", "MWI"));
    list.push(record("Malaysia", "60", "MY", "MYS"));
    list.push(record("Maldives", "960", "MV", "MDV"));
    list.push(record("Mali", "223", "ML", "MLI"));
    list.push(record("Malta", "356", "MT", "MLT"));
    list.push(record("Marshall Islands", "692", "MH", "MHL"));
    list.push(record("Martinique", "596", "MQ", "MTQ"));
    list.push(record("Mauritania", "222", "MR", "MRT"));
    list.push(record("Mauritius", "230", "MU", "MUS"));
    list.push(record("Mayotte", "262", "YT", "MYT"));
    list.push(record("Mexico", "52", "MX", "MEX"));
    list.push(record("Micronesia, Federated States of", "691", "FM", "FSM"));
    list.push(record("Moldova, Republic of", "373", "MD", "MDA"));
    list.push(record("Monaco", "377", "MC", "MCO"));
    list.push(record("Mongolia", "976", "MN", "MNG"));
    list.push(record("Montenegro", "382", "ME", "MNE"));
    list.push(record("Montserrat", "1-664", "MS", "MSR"));
    list.push(record("Morocco", "212", "MA", "MAR"));
    list.push(record("Mozambique", "258", "MZ", "MOZ"));
    list.push(record("Myanmar", "95", "MM", "MMR"));
    list.push(record("Namibia", "264", "NA", "NAM"));
    list.push(record("Nauru", "674", "NR", "NRU"));
    list.push(record("Nepal", "977", "NP", "NPL"));
    list.push(record("Netherlands", "31", "NL", "NLD"));
    list.push(record("New Caledonia", "687", "NC", "NCL"));
    list.push(record("New Zealand", "64", "NZ", "NZL"));
    list.push(record("Nicaragua", "505", "NI", "NIC"));
    list.push(record("Niger", "227", "NE", "NER"));
    list.push(record("Nigeria", "234", "NG", "NGA"));
    list.push(record("Niue", "683", "NU", "NIU"));
    list.push(record("Norfolk Island", "672", "NF", "NFK"));
    assert(list@.take(start.len() as int) =~= start);
}

fn append_part_5(list: &mut Vec<Country>)
    ensures
        final(list)@.len() == old(list)@.len() + 40,
        final(list)@.take(old(list)@.len() as int) == old(list)@,
{
    let ghost start = list@;
    list.push(record("Northern Mariana Islands", "1-670", "MP", "MNP"));
    list.push(record("Norway", "47", "NO", "NOR"));
    list.push(record("Oman", "968", "OM", "OMN"));
    list.push(record("Pakistan", "92", "PK", "PAK"));
    list.push(record("Palau", "680", "PW", "PLW"));
    list.push(record("Palestine, State of", "970", "PS", "PSE"));
    list.push(record("Panama", "507", "PA", "PAN"));
    list.push(record("Papua New Guinea", "675", "PG", "PNG"));
    list.push(record("Paraguay", "595", "PY", "PRY"));
    list.push(record("Peru", "51", "PE", "PER"));
    list.push(record("Philippines", "63", "PH", "PHL"));
    list.push(record("Pitcairn", "64", "PN", "PCN"));
    list.push(record("Poland", "48", "PL", "POL"));
    list.push(record("Portugal", "351", "PT", "PRT"));
    list.push(record("Puerto Rico", "1-787", "PR", "PRI"));
    list.push(record("Qatar", "974", "QA", "QAT"));
    list.push(record("Reunion", "262", "RE", "REU"));
    list.push(record("Romania", "40", "RO", "ROU"));
    list.push(record("Russian Federation", "7", "RU", "RUS"));
    list.push(record("Rwanda", "250", "RW", "RWA"));
    list.push(record("Saint Helena, Ascension and Tristan da Cunha", "290", "SH", "SHN"));
    list.push(record("Saint Kitts and Nevis", "1-869", "KN", "KNA"));
    list.push(record("Saint Lucia", "1-758", "LC", "LCA"));
    list.push(record("Saint Pierre and Miquelon", "508", "PM", "SPM"));
    list.push(record("Saint Vincent and the Grenadines", "1-784", "VC", "VCT"));
    list.push(record("Samoa", "685", "WS", "WSM"));
    list.push(record("San Marino", "378", "SM", "SMR"));
    list.push(record("Sao Tome and Principe", "239", "ST", "STP"));
    list.push(record("Saudi Arabia", "966", "SA", "SAU"));
    list.push(record("Senegal", "221", "SN", "SEN"));
    list.push(record("Serbia", "381", "RS", "SRB"));
    list.push(record("Seychelles", "248", "SC", "SYC"));
    list.push(record("Sierra Leone", "232", "SL", "SLE"));
    list.push(record("Singapore", "65", "SG", "SGP"));
    list.push(record("Slovakia", "421", "SK", "SVK"));
    list.push(record("Slovenia", "386", "SI", "SVN"));
    list.push(record("Solomon Islands", "677", "SB", "SLB"));
    list.push(record("Somalia", "252", "SO", "SOM"));
    list.push(record("South Africa", "27", "ZA", "ZAF"));
    list.push(record("South Georgia and the South Sandwich Islands", "500", "GS", "SGS"));
    assert(list@.take(start.len() as int) =~= start);
}

fn append_part_6(list: &mut Vec<Country>)
    ensures
        final(list)@.len() == old(list)@.len() + 40,
        final(list)@.take(old(list)@.len() as int) == old(list)@,
{
    let ghost start = list@;
    list.push(record("Spain", "34", "ES", "ESP"));
    list.push(record("Sri Lanka", "94", "LK", "LKA"));
    list.push(record("Sudan", "249", "SD", "SDN"));
    list.push(record("Suriname", "597", "SR", "SUR"));
    list.push(record("Svalbard and Jan Mayen", "47", "SJ", "SJM"));
    list.push(record("Swaziland", "268", "SZ", "SWZ"));
    list.push(record("Sweden", "46", "SE", "SWE"));
    list.push(record("Switzerland", "41", "CH", "CHE"));
    list.push(record("Syrian Arab Republic", "963", "SY", "SYR"));
    list.push(record("Taiwan", "886", "TW", "TWN"));
    list.push(record("Tajikistan", "992", "TJ", "TJK"));
    list.push(record("Tanzania, United Republic of", "255", "TZ", "TZA"));
    list.push(record("Thailand", "66", "TH", "THA"));
    list.push(record("Timor-Leste", "670", "TL", "TLS"));
    list.push(record("Togo", "228", "TG", "TGO"));
    list.push(record("Tokelau", "690", "TK", "TKL"));
    list.push(record("Tonga", "676", "TO", "TON"));
    list.push(record("Trinidad and Tobago", "1-868", "TT", "TTO"));
    list.push(record("Tunisia", "216", "TN", "TUN"));
    list.push(record("Turkey", "90", "TR", "TUR"));
    list.push(record("Turkmenistan", "993", "TM", "TKM"));
    list.push(record("Turks and Caicos Islands", "1-649", "TC", "TCA"));
    list.push(record("Tuvalu", "688", "TV", "TUV"));
    list.push(record("Uganda", "256", "UG", "UGA"));
    list.push(record("Ukraine", "380", "UA", "UKR"));
    list.push(record("United Arab Emirates", "971", "AE", "ARE"));
    list.push(record("United Kingdom", "44", "GB", "GBR"));
    list.push(record("United States", "1", "US", "USA"));
    list.push(record("Uruguay", "598", "UY", "URY"));
    list.push(record("Uzbekistan", "998", "UZ", "UZB"));
    list.push(record("Vanuatu", "678", "VU", "VUT"));
    list.push(record("Venezuela", "58", "VE", "VEN"));
    list.push(record("Viet Nam", "84", "VN", "VNM"));
    list.push(record("Virgin Islands, British", "1-284", "VG", "VGB"));
    list.push(record("Virgin Islands, U.S.", "1-340", "VI", "VIR"));
    list.push(record("Wallis and Futuna", "681", "WF", "WLF"));
    list.push(record("Western Sahara", "212", "EH", "ESH"));
    list.push(record("Yemen", "967", "YE", "YEM"));
    list.push(record("Zambia", "260", "ZM", "ZMB"));
    list.push(record("Zimbabwe", "263", "ZW", "ZWE"));
    assert(list@.take(start.len() as int) =~= start);
}

/// The table: 240 countries, Afghanistan first.
pub fn country_table() -> (r: Vec<Country>)
    ensures
        r@.len() == 240,
        r@[0].name@ == "Afghanistan"@,
        r@[0].phone_code@ == "93"@,
        r@[0].iso_2_code@ == "AF"@,
        r@[0].iso_3_code@ == "AFG"@,
{
    let mut list: Vec<Country> = Vec::new();
    append_part_1(&mut list);
    let ghost before = list@;
    append_part_2(&mut list);
    assert(list@[0] == list@.take(before.len() as int)[0]);
    let ghost before = list@;
    append_part_3(&mut list);
    assert(list@[0] == list@.take(before.len() as int)[0]);
    let ghost before = list@;
    append_part_4(&mut list);
    assert(list@[0] == list@.take(before.len() as int)[0]);
    let ghost before = list@;
    append_part_5(&mut list);
    assert(list@[0] == list@.take(before.len() as int)[0]);
    let ghost before = list@;
    append_part_6(&mut list);
    assert(list@[0] == list@.take(before.len() as int)[0]);
    list
}

} // verus!
