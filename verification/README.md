# hpw_convert_eip681

Parses HashPort Wallet payment links
(`https://link.expo2025-wallet.com/pay?to=..&master_currency_id=487&amount=<hex>&to_name=..`)
and turns them into EIP-681 payment URIs (`ethereum:<JPYC contract>@137/transfer?address=..&uint256=..`),
or into their address and amount. Only Polygon and JPYC are supported.

- `src/` is the verified library (Verus). Its contracts state the whole
  behaviour of the parser over the URL parser's result, the lenient and strict
  (EIP-55) address syntaxes and the hex amount syntax; `src/laws.rs` proves the
  properties that relate several functions.
- `app/` holds the WebAssembly bindings.
- `tests/` holds the tests.
