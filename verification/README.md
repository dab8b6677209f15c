# settlement

Collects the daily settlement data of five payment gateways (Tosspay, Kakaopay,
Naverpay, Payco, Jinairpay) and writes each company's settled payments as rows
of one common shape to `./data/_{CODE}_SP_{YYYYMMDD}.csv`.

- `src/` is the verified library: the conversion of each gateway's records into
  payment rows, the date texts (`YYYYMMDD`, `YYYY-MM-DD`), the request texts,
  the page loop state of Naverpay, the reading of Payco's tab-separated
  download, file names and company codes. Its contracts are proved by Verus.
- `app/` is the program around it: command line, environment, HTTP requests,
  JSON decoding, Payco's floating-point amounts and the CSV file writing.
- `tests/` runs the library on concrete records.
