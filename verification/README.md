# japanese_law_id

Parsing and printing of the law identifiers (法令ID) of the Japanese
government, as used by e-Gov 法令検索, and of the era years (和暦) they are
written in. The naming convention is <https://laws.e-gov.go.jp/file/LawIdNamingConvention.pdf>.

The library is written in Verus: every function states what it returns in its
contract, and the contracts are proved.

- `src/era.rs`: eras, era years and dates, and conversion from the Gregorian calendar.
- `src/wareki_text.rs`: finding an era year such as 「平成五年」 in a text; kanji
  numerals are read with the `kansuji` crate.
- `src/ministry.rs`, `src/ministries.rs`: the ministries of each period, their bit
  field in an identifier and the names that identify them in a title.
- `src/institution.rs`: the institutions that issue regulations.
- `src/law_id.rs`: the kind field and the whole identifier, read and printed.
- `src/ministry_name.rs`: the ministries named in an ordinance's title.
- `src/round_trip.rs`: printing what was read gives the text back, and reading
  what was printed gives the value back.
- `src/text.rs`, `src/numerals.rs`: numbers in a radix, padding and text helpers.
- `app/lib.rs`: copies of the types that derive serde's `Serialize` and
  `Deserialize`, with conversions both ways.

```
use japanese_law_id::*;

let s = "505M60001024060";
let law_id = LawId::from_id_str(s).unwrap();
assert_eq!(law_id.to_id_str(), s);
```
