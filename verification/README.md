# esp_idf_spi

The decisions of an SPI master driver for ESP-IDF, written and proved in Verus.

`src/` is the library. It makes no hardware call. Each operation of the driver is a small state
machine whose `step` takes the outcome of the last ESP-IDF call and says which call comes next,
with all of its arguments, or what the operation returns.

| module | what it decides |
| --- | --- |
| `config`, `dma`, `v02` | configuration, transfer sizes, clock modes |
| `host`, `gpio`, `sys` | controllers, fixed pins, status codes, build constants |
| `setup`, `teardown` | bringing a bus and its device up, and giving them up |
| `chunk`, `transmission` | how a buffer is cut, and what one transmission is asked to do |
| `bus` | reads, writes and transfers within a transaction |
| `transaction` | acquiring and releasing the bus around a body |
| `blocking`, `exec`, `write_iter` | the operations that stand on their own |

The modules whose names end in `_laws` prove what whole runs of these machines promise: that every
byte is sent once and in order, that nothing is transmitted without the bus, that a failure ends a
run and is what it returns, and that the bus is released if and only if it was acquired.

`app/` is the driver: it performs the calls and implements the traits of the hardware abstraction
layer. `tests/` runs the machines on concrete values.
