# wio_exercise

Programs for the Seeed Wio Terminal (LCD, QSPI flash, SD card, Wi-Fi,
microphone, accelerometer, buzzer, UART, Grove header pins), split in two:

- `src/` is a library verified with Verus. It decides what the programs do:
  the scrolling log's cursor rules (`terminal`), drawing plans for the LCD
  (`canvas`, `wifi`, `sdcard`), the flash chip's status registers and the
  wait for it to go idle (`flash`), the flash self-test as a state machine
  (`flash_check`), the Wi-Fi scan cycle (`wifi`), the microphone's sample
  queue and the sum's place on screen (`microphone`), where the
  accelerometer readings go (`accelerometer`), and the buzzer's duty cycle
  (`buzzer`).
- `app/` holds the programs themselves: they own the peripherals, carry out
  the library's plans and feed back what the hardware answered.

The library calls embedded-graphics (font metrics) and heapless (a bounded
string and the single-producer single-consumer queue) through a few trusted
wrappers whose contracts restate those crates' documented behaviour.
