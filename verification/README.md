# async_php

The verified core of an asynchronous runtime extension for PHP (Tokio under
PHP Fibers), written in Verus.

- `src/` is the library. Its functions carry contracts that Verus proves,
  apart from the trusted wrappers named below: the SQL placeholder compiler, PDO DSN conversion, in-memory byte
  cursors and HTTP bodies, the state machine of PHP-backed IO objects,
  tickers, cookie jars, request methods and URIs, JSON and form bodies, curl
  option plans, connection options and the other
  decisions of the extension. Calls into `base64`, `urlencoding`, `bytes`,
  `cookie_store`, `cookie`, `url`, `hyper`, `serde_json`, `reqwest` and a few `std` functions stand behind
  small trusted wrappers (the functions marked `external_body`, about thirty
  of them): Verus takes their contracts on trust, and each one's doc comment
  names the outside function it calls and says what the contract claims.
  The `law_*` proof functions state the properties that hold across
  operations.
- `tests/` runs the library against concrete inputs.
- `app/` is the PHP extension itself (ext-php-rs classes, hyper, reqwest,
  SQLx, libcurl, Tokio): it performs the I/O and consults the library.
